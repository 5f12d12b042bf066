use vstd::prelude::*;

use crate::state::SwitchMode;

verus! {

/// Length of the leading token of `s`: the number of characters before the
/// first space, or all of them when there is no space.
pub open spec fn token_len(s: Seq<char>) -> int
    decreases s.len(),
{
    if s.len() == 0 {
        0
    } else if s[0] == ' ' {
        0
    } else {
        1 + token_len(s.skip(1))
    }
}

/// The leading token of `s`: everything before the first space.
pub open spec fn first_token(s: Seq<char>) -> Seq<char> {
    s.take(token_len(s))
}

/// A position with no space before it, and a space (or the end of the text)
/// at it, is exactly the length of the leading token.
pub proof fn lemma_token_len_position(s: Seq<char>, l: int)
    requires
        0 <= l <= s.len(),
        forall|k: int| 0 <= k < l ==> s[k] != ' ',
        l == s.len() || s[l] == ' ',
    ensures
        token_len(s) == l,
    decreases s.len(),
{
    if l > 0 {
        assert(s[0] != ' ');
        let t = s.skip(1);
        assert forall|k: int| 0 <= k < l - 1 implies t[k] != ' ' by {
            assert(t[k] == s[k + 1]);
        }
        assert(l - 1 == t.len() || t[l - 1] == ' ');
        lemma_token_len_position(t, l - 1);
    }
}

/// Whether the stored autoload value would launch this executable: its
/// leading token - the text before the first space, where any stored launch
/// argument begins - must be the executable's path, whole.
pub fn autoload_record_matches(record: &str, exe: &str) -> (r: bool)
    ensures
        r == (first_token(record@) == exe@),
{
    let n = record.unicode_len();
    let mut tok: usize = 0;
    while tok < n && record.get_char(tok) != ' '
        invariant
            0 <= tok <= n,
            n == record@.len(),
            forall|k: int| 0 <= k < tok ==> record@[k] != ' ',
        decreases n - tok,
    {
        tok = tok + 1;
    }
    proof {
        lemma_token_len_position(record@, tok as int);
        assert(first_token(record@).len() == tok);
    }
    let m = exe.unicode_len();
    if tok != m {
        proof {
            assert(first_token(record@).len() != exe@.len());
        }
        return false;
    }
    let mut j: usize = 0;
    while j < tok
        invariant
            0 <= j <= tok,
            tok == m,
            n == record@.len(),
            m == exe@.len(),
            tok <= n,
            token_len(record@) == tok as int,
            forall|k: int| 0 <= k < j ==> record@[k] == exe@[k],
        decreases tok - j,
    {
        let rc = record.get_char(j);
        let ec = exe.get_char(j);
        if rc != ec {
            proof {
                assert(first_token(record@)[j as int] == record@[j as int]);
            }
            return false;
        }
        j = j + 1;
    }
    proof {
        assert(first_token(record@) =~= exe@);
    }
    true
}

/// The launch argument stored with the autoload entry so that the next
/// launch restores the current mode: `--previous` when tracking the
/// previous layout, nothing in circular mode.
pub fn autoload_flag(mode: SwitchMode) -> (r: Option<String>)
    ensures
        (r is Some) == (mode == SwitchMode::TrackPrevious),
        r matches Some(f) ==> f@ == "--previous"@,
{
    match mode {
        SwitchMode::TrackPrevious => Some(String::from_str("--previous")),
        SwitchMode::Circular => None,
    }
}

/// The value stored under the autoload entry: the executable path, followed
/// by the launch argument after a single space when there is one.
pub fn compose_autoload_value(exe: &str, flag: Option<&str>) -> (r: String)
    ensures
        flag is None ==> r@ == exe@,
        flag matches Some(f) ==> r@ == exe@ + " "@ + f@,
{
    match flag {
        None => String::from_str(exe),
        Some(f) => {
            let mut value = String::from_str(exe);
            value.append(" ");
            value.append(f);
            value
        },
    }
}

/// Storing an autoload value composed for a space-free executable path and
/// then matching it against that same path succeeds, with or without a
/// stored launch argument.
pub proof fn lemma_composed_value_matches(exe: Seq<char>, flag: Seq<char>)
    requires
        forall|k: int| 0 <= k < exe.len() ==> exe[k] != ' ',
    ensures
        first_token(exe) == exe,
        first_token(exe + " "@ + flag) == exe,
{
    reveal_strlit(" ");
    lemma_token_len_position(exe, exe.len() as int);
    assert(first_token(exe) =~= exe);
    let full = exe + " "@ + flag;
    assert(full[exe.len() as int] == ' ');
    assert forall|k: int| 0 <= k < exe.len() implies full[k] != ' ' by {
        assert(full[k] == exe[k]);
    }
    lemma_token_len_position(full, exe.len() as int);
    assert(first_token(full) =~= exe);
}

} // verus!
