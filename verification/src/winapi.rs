//! What the library knows of the foreground window.
use vstd::prelude::*;
use vstd::string::*;
use crate::text::{to_owned_string, trim_end_char, trimmed_end_char};

verus! {

/// The title of the foreground window and the name of its program.
pub struct ActiveWindowInfo {
    pub window: String,
    pub process: String,
}

/// "N/A"
pub open spec fn not_available() -> Seq<char> {
    seq!['N', '/', 'A']
}

/// The window information where the platform offers none: "N/A" for both.
pub fn get_active_window_info() -> (info: ActiveWindowInfo)
    ensures
        info.window@ == not_available(),
        info.process@ == not_available(),
{
    proof {
        reveal_strlit("N/A");
        assert("N/A"@ =~= not_available());
    }
    ActiveWindowInfo { window: to_owned_string("N/A"), process: to_owned_string("N/A") }
}

/// "Unknown"
pub open spec fn unknown_process() -> Seq<char> {
    seq!['U', 'n', 'k', 'n', 'o', 'w', 'n']
}

/// Where an executable's name ends in its fixed-size UTF-16 buffer: at the
/// first NUL, and at 0 (no name) when the buffer holds none.
pub open spec fn name_end_of(buf: Seq<u16>) -> int {
    if exists|i: int| 0 <= i < buf.len() && buf[i] == 0 {
        choose|i: int| 0 <= i < buf.len() && buf[i] == 0 && forall|j: int| 0 <= j < i ==> buf[j] != 0
    } else {
        0
    }
}

/// Where an executable's name ends in its UTF-16 buffer (see `name_end_of`).
pub fn name_end(buf: &[u16]) -> (end: usize)
    ensures
        end == name_end_of(buf@),
        end <= buf@.len(),
        forall|j: int| 0 <= j < end ==> buf@[j] != 0,
{
    let n = buf.len();
    let mut i: usize = 0;
    while i < n && buf[i] != 0
        invariant
            i <= n,
            n == buf@.len(),
            forall|j: int| 0 <= j < i ==> buf@[j] != 0,
        decreases n - i,
    {
        i += 1;
    }
    if i == n {
        proof {
            assert(!exists|k: int| 0 <= k < buf@.len() && buf@[k] == 0);
        }
        return 0;
    }
    proof {
        assert(buf@[i as int] == 0);
        let k = choose|k: int|
            0 <= k < buf@.len() && buf@[k] == 0 && forall|j: int| 0 <= j < k ==> buf@[j] != 0;
        if k < i {
            assert(buf@[k] != 0);
        } else if k > i {
            assert(buf@[i as int] != 0);
        }
    }
    i
}

/// The program name to show for a window: the name found for its process,
/// or "Unknown" when none was found.
pub fn process_name_or_unknown(found: String) -> (name: String)
    ensures
        name@ == (if found@.len() == 0 {
            unknown_process()
        } else {
            found@
        }),
{
    if found.unicode_len() == 0 {
        proof {
            reveal_strlit("Unknown");
            assert("Unknown"@ =~= unknown_process());
        }
        to_owned_string("Unknown")
    } else {
        found
    }
}

/// A window title read from a buffer: the text without its trailing NULs.
pub fn window_title(text: &str) -> (title: &str)
    ensures
        title@ == trimmed_end_char(text@, '\0'),
{
    trim_end_char(text, '\0')
}

} // verus!
