//! The session slot: one remote terminal at a time, and what the teardown
//! of a terminal's processes reads from the kernel's process table.

use vstd::prelude::*;
use crate::agent::register::{skip_whitespace, skip_word, slice_chars, word_end};
use crate::relay::config::{parse_i64, parse_i64_chars};
use crate::text::{chars_of, leading_whitespace};

verus! {

/// A claim of the slot held by `s` for `id`: whether it is granted, and
/// who holds the slot after.
pub open spec fn after_claim(s: Option<u128>, id: u128) -> (bool, Option<u128>) {
    if s is None {
        (true, Some(id))
    } else {
        (false, s)
    }
}

/// Who holds the slot held by `s` after `id` releases it.
pub open spec fn after_release(s: Option<u128>, id: u128) -> Option<u128> {
    if s == Some(id) {
        None
    } else {
        s
    }
}

/// Which terminal session, if any, holds the agent's single slot. A second
/// session is refused rather than queued. The slot is one value with one
/// owner: it cannot be copied, so every claim and release goes through the
/// same slot (a program that shares it between tasks puts it behind a
/// lock).
#[derive(Debug)]
pub struct SessionSlot {
    active: Option<u128>,
}

impl View for SessionSlot {
    type V = Option<u128>;

    closed spec fn view(&self) -> Option<u128> {
        self.active
    }
}

impl Default for SessionSlot {
    fn default() -> (r: Self)
        ensures
            r@ is None,
    {
        SessionSlot { active: None }
    }
}

impl SessionSlot {
    pub fn new() -> (r: Self)
        ensures
            r@ is None,
    {
        SessionSlot { active: None }
    }

    /// Takes the slot for `session_id`; false, and nothing changed, when a
    /// session already holds it.
    pub fn claim(&mut self, session_id: u128) -> (r: bool)
        ensures
            (r, final(self)@) == after_claim(old(self)@, session_id),
    {
        if self.active.is_some() {
            return false;
        }
        self.active = Some(session_id);
        true
    }

    /// Frees the slot if `session_id` holds it; releasing another session
    /// leaves the slot as it is.
    pub fn release(&mut self, session_id: u128)
        ensures
            final(self)@ == after_release(old(self)@, session_id),
    {
        if self.active == Some(session_id) {
            self.active = None;
        }
    }

    /// Frees the slot whoever holds it.
    pub fn release_any(&mut self)
        ensures
            final(self)@ is None,
    {
        self.active = None;
    }

    pub fn active(&self) -> (r: Option<u128>)
        ensures
            r == self@,
    {
        self.active
    }
}

/// A slot admits one session at a time: a free slot is granted to the
/// first claim, every other claim fails while that session holds it,
/// releasing any other session leaves it held, and once its holder
/// releases it the next claim is granted.
pub proof fn lemma_one_session_at_a_time(first: u128, second: u128)
    requires
        first != second,
    ensures
        after_claim(None, first) == (true, Some(first)),
        after_claim(Some(first), second) == (false, Some(first)),
        after_release(Some(first), second) == Some(first),
        after_release(Some(first), first) is None,
        after_claim(after_release(Some(first), first), second) == (true, Some(second)),
{
}

/// The `n`th whitespace-separated word of `s` from `i` on, counting from 0.
pub open spec fn word_at(s: Seq<char>, i: int, n: nat) -> Option<Seq<char>>
    decreases n,
{
    let a = leading_whitespace(s, i);
    if a >= s.len() {
        None
    } else if n == 0 {
        Some(s.subrange(a, word_end(s, a)))
    } else {
        word_at(s, word_end(s, a), (n - 1) as nat)
    }
}

/// The index of the last `c` in `s` before `j`, if any.
pub open spec fn last_index_before(s: Seq<char>, c: char, j: int) -> Option<int>
    decreases j,
{
    if j <= 0 {
        None
    } else if s[j - 1] == c {
        Some(j - 1)
    } else {
        last_index_before(s, c, j - 1)
    }
}

/// What std's `i32::from_str` gives for `s`.
pub open spec fn parse_i32(s: Seq<char>) -> Option<i32> {
    match parse_i64(s) {
        Ok(v) => if i32::MIN <= v <= i32::MAX {
            Some(v as i32)
        } else {
            None
        },
        Err(_) => None,
    }
}

/// The session id in the text of `/proc/<pid>/stat`: after the last `)`,
/// which ends the command name (itself free to hold spaces and
/// parentheses), the fields run state, parent, group, session; the fourth
/// is read as an `i32`.
pub open spec fn stat_session_of(stat: Seq<char>) -> Option<i32> {
    match last_index_before(stat, ')', stat.len() as int) {
        None => None,
        Some(p) => match word_at(stat.subrange(p + 1, stat.len() as int), 0, 3) {
            None => None,
            Some(w) => parse_i32(w),
        },
    }
}

/// Reads the session id from the text of a process's `stat` file.
pub fn stat_session_id(stat: &str) -> (r: Option<i32>)
    ensures
        r == stat_session_of(stat@),
{
    let v = chars_of(stat);
    let mut j = v.len();
    while j > 0 && v[j - 1] != ')'
        invariant
            v@ == stat@,
            j <= v.len(),
            last_index_before(stat@, ')', stat@.len() as int) == last_index_before(stat@, ')', j as int),
        decreases j,
    {
        j = j - 1;
    }
    if j == 0 {
        return None;
    }
    assert(last_index_before(stat@, ')', j as int) == Some(j - 1));
    let rest = slice_chars(&v, j, v.len());
    let ghost rs = rest@;
    assert(rs == stat@.subrange(j as int, stat@.len() as int));
    let mut at: usize = 0;
    let mut n: usize = 0;
    while n < 3
        invariant
            n <= 3,
            at <= rest.len(),
            rest@ == rs,
            1 <= j <= stat@.len(),
            last_index_before(stat@, ')', stat@.len() as int) == Some(j - 1),
            rs == stat@.subrange(j as int, stat@.len() as int),
            word_at(rs, 0, 3) == word_at(rs, at as int, (3 - n) as nat),
        decreases 3 - n,
    {
        let a = skip_whitespace(&rest, at);
        if a >= rest.len() {
            assert(word_at(rs, at as int, (3 - n) as nat) is None);
            return None;
        }
        at = skip_word(&rest, a);
        n = n + 1;
    }
    let a = skip_whitespace(&rest, at);
    if a >= rest.len() {
        return None;
    }
    let b = skip_word(&rest, a);
    let word = slice_chars(&rest, a, b);
    match parse_i64_chars(&word) {
        Ok(x) => if -2147483648 <= x && x <= 2147483647 {
            Some(x as i32)
        } else {
            None
        },
        Err(_) => None,
    }
}

} // verus!
