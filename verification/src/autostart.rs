//! Launch at login: what to register, and what to ask of the registrar.
//!
//! The registrar of the operating system is asked outside; here stand the
//! path that is registered and the decisions around the registrar's answers.
use vstd::prelude::*;
use vstd::string::StringSliceAdditionalSpecFns;

verus! {

/// `needle` stands in `hay` at position `i`.
pub open spec fn occurs_at(hay: Seq<u8>, needle: Seq<u8>, i: int) -> bool {
    &&& 0 <= i
    &&& i + needle.len() <= hay.len()
    &&& hay.subrange(i, i + needle.len()) == needle
}

/// `needle` stands somewhere in `hay`.
pub open spec fn occurs(hay: Seq<u8>, needle: Seq<u8>) -> bool {
    exists|i: int| occurs_at(hay, needle, i)
}

/// `i` is the first position at which `needle` stands in `hay`.
pub open spec fn is_first_occurrence(hay: Seq<u8>, needle: Seq<u8>, i: int) -> bool {
    &&& occurs_at(hay, needle, i)
    &&& forall|k: int| 0 <= k < i ==> !occurs_at(hay, needle, k)
}

/// The first position at which `needle` stands in `hay`, where it does.
pub open spec fn first_occurrence(hay: Seq<u8>, needle: Seq<u8>) -> int {
    choose|i: int| is_first_occurrence(hay, needle, i)
}

/// A first occurrence is the only first occurrence.
pub proof fn lemma_first_occurrence(hay: Seq<u8>, needle: Seq<u8>, i: int)
    requires
        is_first_occurrence(hay, needle, i),
    ensures
        occurs(hay, needle),
        first_occurrence(hay, needle) == i,
{
    let j = first_occurrence(hay, needle);
    assert(is_first_occurrence(hay, needle, j));
}

/// Tells whether `needle` stands in `hay` at position `at`.
pub fn matches_at(hay: &[u8], needle: &[u8], at: usize) -> (yes: bool)
    requires
        at + needle@.len() <= hay@.len(),
    ensures
        yes == occurs_at(hay@, needle@, at as int),
{
    let total: usize = hay.len();
    let mut k: usize = 0;
    while k < needle.len()
        invariant
            0 <= k <= needle@.len(),
            at + needle@.len() <= hay@.len() == total,
            forall|j: int| 0 <= j < k ==> hay@[at + j] == needle@[j],
        decreases needle.len() - k,
    {
        if hay[at + k] != needle[k] {
            assert(hay@.subrange(at as int, at + needle@.len())[k as int] != needle@[k as int]);
            return false;
        }
        k += 1;
    }
    assert(hay@.subrange(at as int, at + needle@.len()) =~= needle@);
    true
}

/// Finds the first position at which `needle` stands in `hay`.
pub fn find_subslice(hay: &[u8], needle: &[u8]) -> (found: Option<usize>)
    ensures
        match found {
            Some(i) => is_first_occurrence(hay@, needle@, i as int),
            None => !occurs(hay@, needle@),
        },
{
    if needle.len() == 0 {
        assert(hay@.subrange(0, 0) =~= needle@);
        return Some(0);
    }
    if needle.len() > hay.len() {
        return None;
    }
    let last: usize = hay.len() - needle.len();
    let mut i: usize = 0;
    while i <= last
        invariant
            0 <= i <= last + 1,
            needle@.len() > 0,
            last == hay@.len() - needle@.len(),
            hay@.len() <= usize::MAX,
            forall|k: int| 0 <= k < i ==> !occurs_at(hay@, needle@, k),
        decreases last + 1 - i,
    {
        if matches_at(hay, needle, i) {
            return Some(i);
        }
        i += 1;
    }
    None
}

/// What marks the executable of an application bundle: the path from the
/// bundle's directory down to the directory of its executables.
pub open spec fn bundle_marker() -> Seq<u8> {
    ".app/Contents/MacOS".spec_bytes()
}

/// Length of the extension that ends a bundle directory's name.
pub const BUNDLE_EXTENSION_LEN: usize = 4;

/// How much of the executable's path is registered: on a system with
/// application bundles, the path up to the end of the bundle directory's name
/// where the executable lies in a bundle; the whole path otherwise.
pub open spec fn registered_len(path: Seq<u8>, bundles: bool) -> int {
    if bundles && occurs(path, bundle_marker()) {
        first_occurrence(path, bundle_marker()) + BUNDLE_EXTENSION_LEN
    } else {
        path.len() as int
    }
}

/// Computes how many bytes of the executable's path are registered as the
/// application's path.
pub fn app_path_len(exe_path: &str, bundles: bool) -> (len: usize)
    ensures
        len == registered_len(exe_path.spec_bytes(), bundles),
        len <= exe_path.spec_bytes().len(),
{
    let path = exe_path.as_bytes();
    let total: usize = path.len();
    if !bundles {
        return total;
    }
    let marker = ".app/Contents/MacOS".as_bytes();
    match find_subslice(path, marker) {
        Some(i) => {
            proof {
                lemma_first_occurrence(path@, marker@, i as int);
            }
            if marker.len() < BUNDLE_EXTENSION_LEN {
                proof {
                    lemma_marker_len();
                }
                total
            } else {
                assert(i + marker@.len() <= total);
                i + BUNDLE_EXTENSION_LEN
            }
        },
        None => total,
    }
}

/// The marker is nineteen bytes long.
pub proof fn lemma_marker_len()
    ensures
        bundle_marker().len() == 19,
{
    broadcast use vstd::string::is_ascii_spec_bytes;

    reveal_strlit(".app/Contents/MacOS");
    let s = ".app/Contents/MacOS";
    assert(s@.len() == 19);
    assert(vstd::string::is_ascii(s));
}

/// What is asked of the registrar.
#[derive(Clone, Copy, Debug, PartialEq, Eq, Structural)]
pub enum RegistrarCall {
    Enable,
    Disable,
}

/// Whether the application counts as launched at login, given the registrar's
/// answer: it does only where the registrar answered, and said so.
pub fn is_enabled(answer: Option<bool>) -> (enabled: bool)
    ensures
        enabled == (answer == Some(true)),
{
    match answer {
        Some(yes) => yes,
        None => false,
    }
}

/// What to ask of the registrar to reach the wanted setting.
pub fn set_enabled(enabled: bool) -> (call: RegistrarCall)
    ensures
        call == if enabled {
            RegistrarCall::Enable
        } else {
            RegistrarCall::Disable
        },
{
    if enabled {
        RegistrarCall::Enable
    } else {
        RegistrarCall::Disable
    }
}

/// A change of the setting: the setting to reach and the call that reaches it.
#[derive(Clone, Copy, Debug, PartialEq, Eq, Structural)]
pub struct Toggle {
    pub new_state: bool,
    pub call: RegistrarCall,
}

/// Inverts the setting: says which setting to reach from the present one and
/// what to ask of the registrar for it.
pub fn toggle(current: bool) -> (change: Toggle)
    ensures
        change.new_state == !current,
        change.call == if current {
            RegistrarCall::Disable
        } else {
            RegistrarCall::Enable
        },
{
    let new_state = !current;
    Toggle { new_state, call: set_enabled(new_state) }
}

} // verus!
