//! Class names: the names of the input's classes, and lists of names.

use vstd::prelude::*;

verus! {

/// The name of the input's class `stem`: the classes of the input and of
/// its parts start with `dioxico-`, so that their names meet no others in
/// a page.
pub open spec fn class_name_text(stem: Seq<char>) -> Seq<char> {
    "dioxico-"@ + stem
}

/// The value of a class attribute that holds `base` and, where there is
/// one, `extra` after a single space.
pub open spec fn class_list(base: Seq<char>, extra: Option<Seq<char>>) -> Seq<char> {
    match extra {
        Some(name) => base + seq![' '] + name,
        None => base,
    }
}

/// The name of the input's class `stem`.
pub fn class_name(stem: &str) -> (name: String)
    ensures
        name@ == class_name_text(stem@),
{
    let mut name = String::from_str("dioxico-");
    name.append(stem);
    name
}

/// The class attribute of an element that always has the class `base` and
/// has the class `extra` only in some state.
pub fn classes(base: &str, extra: Option<&str>) -> (list: String)
    ensures
        list@ == class_list(
            base@,
            match extra {
                Some(name) => Some(name@),
                None => None,
            },
        ),
{
    let mut list = String::from_str(base);
    match extra {
        Some(name) => {
            proof {
                reveal_strlit(" ");
                assert(" "@ =~= seq![' ']);
            }
            list.append(" ");
            list.append(name);
        },
        None => {},
    }
    list
}

} // verus!
