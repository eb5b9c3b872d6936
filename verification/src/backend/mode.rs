//! Selecting the device backend.
use vstd::prelude::*;

verus! {

/// The device the tool talks to: the serial link, or a simulated device
/// that answers normally or not at all.
#[derive(Debug, Clone, Copy, PartialEq, Eq, Structural)]
pub enum BackendMode {
    Real,
    Mock,
    MockOffline,
}

/// A character with ASCII letters folded to lower case.
pub open spec fn ascii_fold(c: char) -> u32 {
    if 'A' <= c && c <= 'Z' {
        (c as u32 + 32) as u32
    } else {
        c as u32
    }
}

/// Equality up to ASCII case.
pub open spec fn eq_ignore_ascii_case(a: Seq<char>, b: Seq<char>) -> bool {
    a.len() == b.len() && forall|i: int| 0 <= i < a.len() ==> ascii_fold(#[trigger] a[i]) == ascii_fold(b[i])
}

/// The backend a setting selects: `mock` and `mock-offline`, in any case,
/// select the simulated devices; anything else, or no setting, the real one.
pub open spec fn mode_for(setting: Option<Seq<char>>) -> BackendMode {
    match setting {
        Some(v) => if eq_ignore_ascii_case(v, "mock"@) {
            BackendMode::Mock
        } else if eq_ignore_ascii_case(v, "mock-offline"@) {
            BackendMode::MockOffline
        } else {
            BackendMode::Real
        },
        None => BackendMode::Real,
    }
}

fn fold_char(c: char) -> (u: u32)
    ensures
        u == ascii_fold(c),
{
    if 'A' <= c && c <= 'Z' {
        c as u32 + 32
    } else {
        c as u32
    }
}

fn same_ignoring_ascii_case(a: &str, b: &str) -> (same: bool)
    ensures
        same == eq_ignore_ascii_case(a@, b@),
{
    let n = a.unicode_len();
    if n != b.unicode_len() {
        return false;
    }
    let mut i: usize = 0;
    while i < n
        invariant
            n == a@.len() == b@.len(),
            0 <= i <= n,
            forall|j: int| 0 <= j < i ==> ascii_fold(#[trigger] a@[j]) == ascii_fold(b@[j]),
        decreases n - i,
    {
        if fold_char(a.get_char(i)) != fold_char(b.get_char(i)) {
            return false;
        }
        i = i + 1;
    }
    true
}

impl BackendMode {
    /// The backend selected by the `YUDIAN_BACKEND` setting (`None` when unset).
    pub fn from_setting(setting: Option<&str>) -> (mode: BackendMode)
        ensures
            mode == mode_for(
                match setting {
                    Some(s) => Some(s@),
                    None => None,
                },
            ),
    {
        match setting {
            Some(value) => {
                if same_ignoring_ascii_case(value, "mock") {
                    BackendMode::Mock
                } else if same_ignoring_ascii_case(value, "mock-offline") {
                    BackendMode::MockOffline
                } else {
                    BackendMode::Real
                }
            },
            None => BackendMode::Real,
        }
    }
}

} // verus!
