use appseed_cli::catalog::{
    catalog, catalog_groups, classify, group_by_family, is_known_template, Family, Groups,
};

fn names(list: &[&str]) -> Vec<String> {
    list.iter().map(|n| n.to_string()).collect()
}

#[test]
fn the_catalog_in_its_order() {
    assert_eq!(
        catalog(),
        names(&[
            "flask-datta-able",
            "django-datta-able",
            "django-volt-dashboard",
            "flask-volt-dashboard",
            "flask-adminlte",
            "django-soft-ui-dashboard",
        ])
    );
}

#[test]
fn no_template_is_listed_twice() {
    let all = catalog();
    for i in 0..all.len() {
        for j in 0..i {
            assert_ne!(all[i], all[j]);
        }
    }
}

#[test]
fn the_family_is_read_off_the_name() {
    assert_eq!(classify("flask-datta-able"), Family::Flask);
    assert_eq!(classify("django-volt-dashboard"), Family::Django);
    assert_eq!(classify("my-flask"), Family::Flask);
    assert_eq!(classify("a-django-b"), Family::Django);
    assert_eq!(classify("rails-blog"), Family::Other);
    assert_eq!(classify(""), Family::Other);
    assert_eq!(classify("Flask-app"), Family::Other);
}

#[test]
fn flask_goes_before_django_in_a_name_that_holds_both() {
    assert_eq!(classify("django-flask"), Family::Flask);
}

#[test]
fn every_known_template_has_one_of_the_two_families() {
    for name in catalog() {
        let flask = name.contains("flask");
        let django = name.contains("django");
        assert!(flask != django);
        assert_ne!(classify(&name), Family::Other);
    }
}

#[test]
fn known_templates_are_known() {
    for name in catalog() {
        assert!(is_known_template(&name));
    }
    assert!(!is_known_template("default"));
    assert!(!is_known_template(""));
    assert!(!is_known_template("flask"));
    assert!(!is_known_template("flask-datta-able "));
    assert!(!is_known_template("Flask-datta-able"));
}

#[test]
fn the_catalog_split_by_family() {
    assert_eq!(
        catalog_groups(),
        Groups {
            flask: names(&["flask-datta-able", "flask-volt-dashboard", "flask-adminlte"]),
            django: names(&[
                "django-datta-able",
                "django-volt-dashboard",
                "django-soft-ui-dashboard",
            ]),
            other: names(&[]),
        }
    );
}

#[test]
fn groups_keep_the_order_and_lose_nothing() {
    let list = names(&["x", "django-b", "flask-a", "y", "flask-a", "django-a", "flask-django"]);
    let groups = group_by_family(&list);
    assert_eq!(groups.flask, names(&["flask-a", "flask-a", "flask-django"]));
    assert_eq!(groups.django, names(&["django-b", "django-a"]));
    assert_eq!(groups.other, names(&["x", "y"]));
    assert_eq!(groups.flask.len() + groups.django.len() + groups.other.len(), list.len());
}

#[test]
fn an_empty_list_gives_empty_groups() {
    let groups = group_by_family(&names(&[]));
    assert!(groups.flask.is_empty());
    assert!(groups.django.is_empty());
    assert!(groups.other.is_empty());
}
