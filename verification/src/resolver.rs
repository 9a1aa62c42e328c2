//! Resolution of a control name against the names a device reports.
//!
//! A method name such as `zoom` is capitalized in its first character and
//! then looked up, as a whole, among the names of the controls that the
//! device reports. Nothing else is normalized: a driver name of several
//! words is found only where the method spells it out behind its first
//! character.

use vstd::prelude::*;
use vstd::string::*;

verus! {

/// The uppercase mapping of a character: the characters that
/// `char::to_uppercase` yields for it, in order.
pub uninterp spec fn uppercase_of(c: char) -> Seq<char>;

/// Calls `char::to_uppercase` and collects what it yields. The contract
/// claims only that the collected characters are the uppercase mapping of
/// `c`, which depends on nothing but `c`.
#[verifier::external_body]
fn to_uppercase(c: char) -> (upper: String)
    ensures
        upper@ == uppercase_of(c),
{
    c.to_uppercase().collect::<String>()
}

/// `s` with its first character replaced by `upper`; the empty string
/// stays empty.
pub open spec fn title_with(s: Seq<char>, upper: Seq<char>) -> Seq<char> {
    if s.len() == 0 {
        Seq::<char>::empty()
    } else {
        upper + s.skip(1)
    }
}

/// `s` with its first character replaced by that character's uppercase
/// mapping. The rest of the string is kept as it is.
pub open spec fn title_of(s: Seq<char>) -> Seq<char> {
    if s.len() == 0 {
        Seq::<char>::empty()
    } else {
        title_with(s, uppercase_of(s[0]))
    }
}

/// The names held by a list of strings.
pub open spec fn names_of(names: Seq<String>) -> Seq<Seq<char>> {
    Seq::new(names.len(), |i: int| names[i]@)
}

/// The first position at which `names` holds `wanted`, if there is one.
pub open spec fn position_of(names: Seq<Seq<char>>, wanted: Seq<char>) -> Option<int>
    decreases names.len(),
{
    if names.len() == 0 {
        None
    } else if names[0] == wanted {
        Some(0)
    } else {
        match position_of(names.skip(1), wanted) {
            Some(i) => Some(i + 1),
            None => None,
        }
    }
}

/// The position that a lookup hands back, as a mathematical integer.
pub open spec fn as_position(r: Option<usize>) -> Option<int> {
    match r {
        Some(i) => Some(i as int),
        None => None,
    }
}

/// Replaces the first character of `s` by `upper`, which the caller has
/// computed from it.
pub fn capitalize_with(s: &str, upper: &str) -> (r: String)
    ensures
        r@ == title_with(s@, upper@),
{
    let n = s.unicode_len();
    if n == 0 {
        String::new()
    } else {
        let rest = s.substring_char(1, n);
        let mut r = String::from_str(upper);
        r.append(rest);
        proof {
            assert(s@.subrange(1, n as int) =~= s@.skip(1));
        }
        r
    }
}

/// Capitalizes the first character of `s` and leaves the rest unchanged.
pub fn title(s: &str) -> (r: String)
    ensures
        r@ == title_of(s@),
{
    if s.unicode_len() == 0 {
        String::new()
    } else {
        let upper = to_uppercase(s.get_char(0));
        capitalize_with(s, upper.as_str())
    }
}

/// Looks `wanted` up among the control names a device reports, comparing
/// whole names exactly.
pub fn find_control(names: &Vec<String>, wanted: &str) -> (r: Option<usize>)
    ensures
        as_position(r) == position_of(names_of(names@), wanted@),
{
    let key = String::from_str(wanted);
    let mut i: usize = 0;
    while i < names.len()
        invariant
            i <= names.len(),
            key@ == wanted@,
            forall|j: int| 0 <= j < i ==> (#[trigger] names_of(names@)[j]) != wanted@,
        decreases names.len() - i,
    {
        if names[i] == key {
            proof {
                lemma_first_match_is_position(names_of(names@), wanted@, i as int);
            }
            return Some(i);
        }
        i += 1;
    }
    proof {
        lemma_no_match_is_none(names_of(names@), wanted@);
    }
    None
}

/// Resolves the control that `method` names on a device reporting `names`:
/// the position of the capitalized method among them.
pub fn resolve(method: &str, names: &Vec<String>) -> (r: Option<usize>)
    ensures
        as_position(r) == position_of(names_of(names@), title_of(method@)),
{
    let wanted = title(method);
    find_control(names, wanted.as_str())
}

/// `i` is the first position at which `names` holds `wanted`.
pub open spec fn first_match(names: Seq<Seq<char>>, wanted: Seq<char>, i: int) -> bool {
    &&& 0 <= i < names.len()
    &&& names[i] == wanted
    &&& forall|j: int| 0 <= j < i ==> #[trigger] names[j] != wanted
}

/// `names` holds `wanted` at no position.
pub open spec fn no_match(names: Seq<Seq<char>>, wanted: Seq<char>) -> bool {
    forall|j: int| 0 <= j < names.len() ==> #[trigger] names[j] != wanted
}

/// A lookup that answers with a position answers with the first one that
/// holds the wanted name; one that answers with nothing was given names
/// that hold it nowhere.
pub proof fn lemma_position_is_first_match(names: Seq<Seq<char>>, wanted: Seq<char>)
    ensures
        match position_of(names, wanted) {
            Some(i) => first_match(names, wanted, i),
            None => no_match(names, wanted),
        },
    decreases names.len(),
{
    if names.len() > 0 && names[0] != wanted {
        let rest = names.skip(1);
        lemma_position_is_first_match(rest, wanted);
        match position_of(rest, wanted) {
            Some(i) => {
                assert(rest[i] == names[i + 1]);
                assert forall|j: int| 0 <= j < i + 1 implies #[trigger] names[j] != wanted by {
                    if j > 0 {
                        assert(rest[j - 1] == names[j]);
                    }
                }
            },
            None => {
                assert forall|j: int| 0 <= j < names.len() implies #[trigger] names[j]
                    != wanted by {
                    if j > 0 {
                        assert(rest[j - 1] == names[j]);
                    }
                }
            },
        }
    }
}

/// Where `i` is the first position that holds the wanted name, the lookup
/// answers with `i`.
pub proof fn lemma_first_match_is_position(names: Seq<Seq<char>>, wanted: Seq<char>, i: int)
    requires
        first_match(names, wanted, i),
    ensures
        position_of(names, wanted) == Some(i),
{
    lemma_position_is_first_match(names, wanted);
    match position_of(names, wanted) {
        Some(k) => {
            if k < i {
                assert(names[k] != wanted);
            } else if i < k {
                assert(names[i] != wanted);
            }
        },
        None => {
            assert(names[i] != wanted);
        },
    }
}

/// Where no position holds the wanted name, the lookup answers with
/// nothing.
pub proof fn lemma_no_match_is_none(names: Seq<Seq<char>>, wanted: Seq<char>)
    requires
        no_match(names, wanted),
    ensures
        position_of(names, wanted) is None,
{
    lemma_position_is_first_match(names, wanted);
    if let Some(k) = position_of(names, wanted) {
        assert(names[k] != wanted);
    }
}

/// Capitalizing touches nothing behind the first character: what follows
/// the uppercase mapping in the result is the input behind its first
/// character, and the empty input stays empty.
pub proof fn lemma_title_keeps_rest(s: Seq<char>)
    ensures
        s.len() == 0 ==> title_of(s) == s,
        s.len() > 0 ==> title_of(s).len() == uppercase_of(s[0]).len() + s.len() - 1,
        s.len() > 0 ==> title_of(s).take(uppercase_of(s[0]).len() as int) == uppercase_of(s[0]),
        s.len() > 0 ==> title_of(s).skip(uppercase_of(s[0]).len() as int) == s.skip(1),
{
    if s.len() > 0 {
        let u = uppercase_of(s[0]);
        assert((u + s.skip(1)).take(u.len() as int) =~= u);
        assert((u + s.skip(1)).skip(u.len() as int) =~= s.skip(1));
    } else {
        assert(title_of(s) =~= s);
    }
}

/// A name whose first character is its own uppercase mapping is left as
/// it is, and capitalizing twice gives what capitalizing once gives
/// wherever the mapping of the first character starts with such a
/// character.
pub proof fn lemma_title_of_capitalized(s: Seq<char>)
    ensures
        s.len() > 0 && uppercase_of(s[0]) == seq![s[0]] ==> title_of(s) == s,
        s.len() > 0 && uppercase_of(s[0]).len() > 0 && uppercase_of(uppercase_of(s[0])[0])
            == seq![uppercase_of(s[0])[0]] ==> title_of(title_of(s)) == title_of(s),
{
    if s.len() > 0 {
        if uppercase_of(s[0]) == seq![s[0]] {
            assert(seq![s[0]] + s.skip(1) =~= s);
        }
        let u = uppercase_of(s[0]);
        if u.len() > 0 && uppercase_of(u[0]) == seq![u[0]] {
            let t = title_of(s);
            assert(t[0] == u[0]);
            assert(seq![t[0]] + t.skip(1) =~= t);
        }
    }
}

} // verus!
