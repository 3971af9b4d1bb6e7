//! The catalog of templates, and the family a template belongs to.

use vstd::prelude::*;
use vstd::string::*;
use crate::text::{
    contains_text, has_text, lacks_char, lemma_missing_char, lemma_prefix_occurs, same_text,
    texts_of,
};

verus! {

/// The family of a template, read off its name.
#[derive(Clone, Copy, Debug, PartialEq, Eq, Structural)]
pub enum Family {
    Flask,
    Django,
    Other,
}

/// Whether a name holds `flask`.
pub open spec fn flask_like(name: Seq<char>) -> bool {
    contains_text(name, "flask"@)
}

/// Whether a name holds `django`.
pub open spec fn django_like(name: Seq<char>) -> bool {
    contains_text(name, "django"@)
}

/// The family of a name: `Flask` if it holds `flask`, else `Django` if it
/// holds `django`, else `Other`.
pub open spec fn family_of(name: Seq<char>) -> Family {
    if flask_like(name) {
        Family::Flask
    } else if django_like(name) {
        Family::Django
    } else {
        Family::Other
    }
}

/// The names of the known templates, in the order in which they are
/// offered.
pub open spec fn catalog_names() -> Seq<Seq<char>> {
    seq![
        "flask-datta-able"@,
        "django-datta-able"@,
        "django-volt-dashboard"@,
        "flask-volt-dashboard"@,
        "flask-adminlte"@,
        "django-soft-ui-dashboard"@,
    ]
}

/// Whether `name` is one of the known templates.
pub open spec fn in_catalog(name: Seq<char>) -> bool {
    catalog_names().contains(name)
}

/// The family of a template, read off its name.
pub fn classify(name: &str) -> (family: Family)
    ensures
        family == family_of(name@),
{
    if has_text(name, "flask") {
        Family::Flask
    } else if has_text(name, "django") {
        Family::Django
    } else {
        Family::Other
    }
}

/// The known templates, in the order in which they are offered.
pub fn catalog() -> (names: Vec<String>)
    ensures
        texts_of(names@) == catalog_names(),
{
    let mut names: Vec<String> = Vec::new();
    names.push("flask-datta-able".to_owned());
    names.push("django-datta-able".to_owned());
    names.push("django-volt-dashboard".to_owned());
    names.push("flask-volt-dashboard".to_owned());
    names.push("flask-adminlte".to_owned());
    names.push("django-soft-ui-dashboard".to_owned());
    assert(texts_of(names@) =~= catalog_names());
    names
}

/// Whether `name` is one of the known templates.
pub fn is_known_template(name: &str) -> (known: bool)
    ensures
        known == in_catalog(name@),
{
    let names = catalog();
    let mut i: usize = 0;
    while i < names.len()
        invariant
            i <= names.len(),
            texts_of(names@) == catalog_names(),
            forall|j: int| 0 <= j < i ==> catalog_names()[j] != name@,
        decreases names.len() - i,
    {
        assert(texts_of(names@)[i as int] == names@[i as int]@);
        if same_text(names[i].as_str(), name) {
            return true;
        }
        i += 1;
    }
    assert(texts_of(names@).len() == names@.len());
    false
}

/// The names of one family among `names`, in the order in which they
/// stand there.
pub open spec fn of_family(names: Seq<Seq<char>>, family: Family) -> Seq<Seq<char>> {
    names.filter(is_of(family))
}

/// The test for the names of one family.
pub open spec fn is_of(family: Family) -> spec_fn(Seq<char>) -> bool {
    |name: Seq<char>| family_of(name) == family
}

/// A list of names split by family.
#[derive(Clone, Debug, PartialEq, Eq)]
pub struct Groups {
    pub flask: Vec<String>,
    pub django: Vec<String>,
    pub other: Vec<String>,
}

/// Adds a copy of `name` at the end of `group`.
fn push_name(group: &mut Vec<String>, name: &String)
    ensures
        texts_of(final(group)@) == texts_of(old(group)@).push(name@),
{
    group.push(name.clone());
    assert(texts_of(group@) =~= texts_of(old(group)@).push(name@));
}

/// Splits `names` by family. Each group keeps the order of `names`.
pub fn group_by_family(names: &Vec<String>) -> (groups: Groups)
    ensures
        texts_of(groups.flask@) == of_family(texts_of(names@), Family::Flask),
        texts_of(groups.django@) == of_family(texts_of(names@), Family::Django),
        texts_of(groups.other@) == of_family(texts_of(names@), Family::Other),
{
    let mut flask: Vec<String> = Vec::new();
    let mut django: Vec<String> = Vec::new();
    let mut other: Vec<String> = Vec::new();
    let ghost all = texts_of(names@);
    let mut i: usize = 0;
    proof {
        reveal_with_fuel(Seq::filter, 1);
        assert(all.take(0) =~= Seq::<Seq<char>>::empty());
        assert(texts_of(flask@) =~= of_family(all.take(0), Family::Flask));
        assert(texts_of(django@) =~= of_family(all.take(0), Family::Django));
        assert(texts_of(other@) =~= of_family(all.take(0), Family::Other));
    }
    while i < names.len()
        invariant
            i <= names.len(),
            all == texts_of(names@),
            texts_of(flask@) == of_family(all.take(i as int), Family::Flask),
            texts_of(django@) == of_family(all.take(i as int), Family::Django),
            texts_of(other@) == of_family(all.take(i as int), Family::Other),
        decreases names.len() - i,
    {
        proof {
            reveal_with_fuel(Seq::filter, 1);
            assert(all.take(i + 1).drop_last() =~= all.take(i as int));
            assert(all.take(i + 1).last() == names@[i as int]@);
        }
        match classify(names[i].as_str()) {
            Family::Flask => push_name(&mut flask, &names[i]),
            Family::Django => push_name(&mut django, &names[i]),
            Family::Other => push_name(&mut other, &names[i]),
        }
        i += 1;
    }
    assert(all.take(i as int) =~= all);
    Groups { flask, django, other }
}

/// The catalog split by family.
pub fn catalog_groups() -> (groups: Groups)
    ensures
        texts_of(groups.flask@) == of_family(catalog_names(), Family::Flask),
        texts_of(groups.django@) == of_family(catalog_names(), Family::Django),
        texts_of(groups.other@) == of_family(catalog_names(), Family::Other),
{
    group_by_family(&catalog())
}

/// The family of each known template. Every one holds exactly one of
/// `flask` and `django`.
pub proof fn lemma_catalog_families()
    ensures
        catalog_names().len() == 6,
        family_of(catalog_names()[0]) == Family::Flask,
        family_of(catalog_names()[1]) == Family::Django,
        family_of(catalog_names()[2]) == Family::Django,
        family_of(catalog_names()[3]) == Family::Flask,
        family_of(catalog_names()[4]) == Family::Flask,
        family_of(catalog_names()[5]) == Family::Django,
        forall|name: Seq<char>|
            in_catalog(name) ==> (#[trigger] flask_like(name)) != django_like(name),
{
    reveal_strlit("flask");
    reveal_strlit("django");
    reveal_strlit("flask-datta-able");
    reveal_strlit("django-datta-able");
    reveal_strlit("django-volt-dashboard");
    reveal_strlit("flask-volt-dashboard");
    reveal_strlit("flask-adminlte");
    reveal_strlit("django-soft-ui-dashboard");
    let flask = "flask"@;
    let django = "django"@;
    assert(django[1] == 'j');
    assert(flask[4] == 'k');
    assert(contains_text("flask-datta-able"@, flask) && !contains_text("flask-datta-able"@, django))
        by {
        reveal_with_fuel(lacks_char, 17);
        lemma_prefix_occurs("flask-datta-able"@, flask);
        lemma_missing_char("flask-datta-able"@, django, 1);
    }
    assert(contains_text("flask-volt-dashboard"@, flask) && !contains_text(
        "flask-volt-dashboard"@,
        django,
    )) by {
        reveal_with_fuel(lacks_char, 21);
        lemma_prefix_occurs("flask-volt-dashboard"@, flask);
        lemma_missing_char("flask-volt-dashboard"@, django, 1);
    }
    assert(contains_text("flask-adminlte"@, flask) && !contains_text("flask-adminlte"@, django))
        by {
        reveal_with_fuel(lacks_char, 15);
        lemma_prefix_occurs("flask-adminlte"@, flask);
        lemma_missing_char("flask-adminlte"@, django, 1);
    }
    assert(contains_text("django-datta-able"@, django) && !contains_text(
        "django-datta-able"@,
        flask,
    )) by {
        reveal_with_fuel(lacks_char, 18);
        lemma_prefix_occurs("django-datta-able"@, django);
        lemma_missing_char("django-datta-able"@, flask, 4);
    }
    assert(contains_text("django-volt-dashboard"@, django) && !contains_text(
        "django-volt-dashboard"@,
        flask,
    )) by {
        reveal_with_fuel(lacks_char, 22);
        lemma_prefix_occurs("django-volt-dashboard"@, django);
        lemma_missing_char("django-volt-dashboard"@, flask, 4);
    }
    assert(contains_text("django-soft-ui-dashboard"@, django) && !contains_text(
        "django-soft-ui-dashboard"@,
        flask,
    )) by {
        reveal_with_fuel(lacks_char, 25);
        lemma_prefix_occurs("django-soft-ui-dashboard"@, django);
        lemma_missing_char("django-soft-ui-dashboard"@, flask, 4);
    }
}

/// No known template is listed twice.
pub proof fn lemma_catalog_distinct()
    ensures
        forall|i: int, j: int|
            0 <= i < j < catalog_names().len() ==> catalog_names()[i] != catalog_names()[j],
{
    reveal_strlit("flask-datta-able");
    reveal_strlit("django-datta-able");
    reveal_strlit("django-volt-dashboard");
    reveal_strlit("flask-volt-dashboard");
    reveal_strlit("flask-adminlte");
    reveal_strlit("django-soft-ui-dashboard");
    let names = catalog_names();
    assert(names[0].len() == 16);
    assert(names[1].len() == 17);
    assert(names[2].len() == 21);
    assert(names[3].len() == 20);
    assert(names[4].len() == 14);
    assert(names[5].len() == 24);
}

/// Splitting by family loses nothing and adds nothing: the three groups
/// together are as long as the list, and a name of the list stands in a
/// group exactly if it is of that group's family.
pub proof fn lemma_groups_partition(names: Seq<Seq<char>>)
    ensures
        of_family(names, Family::Flask).len() + of_family(names, Family::Django).len() + of_family(
            names,
            Family::Other,
        ).len() == names.len(),
        forall|i: int, family: Family|
            0 <= i < names.len() ==> (#[trigger] of_family(names, family).contains(names[i])
                <==> family_of(names[i]) == family),
    decreases names.len(),
{
    reveal_with_fuel(Seq::filter, 1);
    if names.len() > 0 {
        lemma_groups_partition(names.drop_last());
    }
    assert forall|i: int, family: Family| 0 <= i < names.len() implies (#[trigger] of_family(
        names,
        family,
    ).contains(names[i]) <==> family_of(names[i]) == family) by {
        let group = of_family(names, family);
        if family_of(names[i]) == family {
            names.lemma_filter_contains(is_of(family), i);
        }
        if group.contains(names[i]) {
            let k = choose|k: int| 0 <= k < group.len() && group[k] == names[i];
            names.lemma_filter_pred(is_of(family), k);
        }
    }
}

/// A group keeps the order of the list: of two names of a group, the one
/// that stands first in the group is found first in the list.
pub proof fn lemma_group_keeps_order(names: Seq<Seq<char>>, family: Family, a: int, b: int)
    requires
        0 <= a < b < of_family(names, family).len(),
    ensures
        exists|i: int, j: int|
            0 <= i < j < names.len() && #[trigger] names[i] == of_family(names, family)[a]
                && #[trigger] names[j] == of_family(names, family)[b],
    decreases names.len(),
{
    reveal_with_fuel(Seq::filter, 1);
    let group = of_family(names, family);
    let rest = names.drop_last();
    let last = names.len() - 1;
    if b < of_family(rest, family).len() {
        lemma_group_keeps_order(rest, family, a, b);
        let (i, j) = choose|i: int, j: int|
            0 <= i < j < rest.len() && #[trigger] rest[i] == of_family(rest, family)[a]
                && #[trigger] rest[j] == of_family(rest, family)[b];
        assert(names[i] == group[a] && names[j] == group[b]);
    } else {
        lemma_group_source(rest, family, a);
        let i = choose|i: int| 0 <= i < rest.len() && rest[i] == of_family(rest, family)[a];
        assert(names[i] == group[a] && names[last] == group[b]);
    }
}

/// Each name of a group stands in the list.
proof fn lemma_group_source(names: Seq<Seq<char>>, family: Family, a: int)
    requires
        0 <= a < of_family(names, family).len(),
    ensures
        exists|i: int| 0 <= i < names.len() && names[i] == of_family(names, family)[a],
    decreases names.len(),
{
    reveal_with_fuel(Seq::filter, 1);
    let rest = names.drop_last();
    let last = names.len() - 1;
    if a < of_family(rest, family).len() {
        lemma_group_source(rest, family, a);
        let i = choose|i: int| 0 <= i < rest.len() && rest[i] == of_family(rest, family)[a];
        assert(names[i] == of_family(names, family)[a]);
    } else {
        assert(names[last] == of_family(names, family)[a]);
    }
}

/// The catalog split by family: three templates of each of the two
/// families, in the order of the catalog, and none beside them.
pub proof fn lemma_catalog_groups()
    ensures
        of_family(catalog_names(), Family::Flask) == seq![
            "flask-datta-able"@,
            "flask-volt-dashboard"@,
            "flask-adminlte"@,
        ],
        of_family(catalog_names(), Family::Django) == seq![
            "django-datta-able"@,
            "django-volt-dashboard"@,
            "django-soft-ui-dashboard"@,
        ],
        of_family(catalog_names(), Family::Other) == Seq::<Seq<char>>::empty(),
{
    lemma_catalog_families();
    let names = catalog_names();
    lemma_filtered_prefixes(names, Family::Flask);
    lemma_filtered_prefixes(names, Family::Django);
    lemma_filtered_prefixes(names, Family::Other);
    assert(names.take(6) =~= names);
    assert(of_family(names, Family::Flask) =~= seq![names[0], names[3], names[4]]);
    assert(of_family(names, Family::Django) =~= seq![names[1], names[2], names[5]]);
    assert(of_family(names, Family::Other) =~= Seq::<Seq<char>>::empty());
}

/// How a group grows along the list: one name at a time, by the names of
/// its family.
proof fn lemma_filtered_prefixes(names: Seq<Seq<char>>, family: Family)
    ensures
        of_family(names.take(0), family) == Seq::<Seq<char>>::empty(),
        forall|n: int|
            0 < n <= names.len() ==> #[trigger] of_family(names.take(n), family) == if family_of(
                names[n - 1],
            ) == family {
                of_family(names.take(n - 1), family).push(names[n - 1])
            } else {
                of_family(names.take(n - 1), family)
            },
{
    reveal_with_fuel(Seq::filter, 1);
    assert forall|n: int| 0 < n <= names.len() implies #[trigger] of_family(
        names.take(n),
        family,
    ) == if family_of(names[n - 1]) == family {
        of_family(names.take(n - 1), family).push(names[n - 1])
    } else {
        of_family(names.take(n - 1), family)
    } by {
        assert(names.take(n).drop_last() =~= names.take(n - 1));
    }
}

} // verus!
