//! The terminals: the registry of open sessions by identifier, and the text
//! that the commands send to a session.
use vstd::prelude::*;
use std::collections::HashMap;
use vstd::std_specs::iter::IteratorSpec;
use crate::text::{concat3, decimal, decimal_chars, from_chars, push_all, push_str, to_chars};

verus! {

/// The open terminal sessions by identifier, and the identifier that the
/// next session gets (from 1 on, one more each time).
pub struct PtyRegistry<T> {
    sessions: HashMap<u32, T>,
    next_id: u32,
}

impl<T> View for PtyRegistry<T> {
    type V = Map<u32, T>;

    closed spec fn view(&self) -> Map<u32, T> {
        self.sessions@
    }
}

impl<T> PtyRegistry<T> {
    /// Every identifier in use is below the next one.
    pub closed spec fn wf(&self) -> bool {
        forall|k: u32| #[trigger] self.sessions@.contains_key(k) ==> k < self.next_id
    }

    /// The identifier that the next session gets.
    pub closed spec fn next(&self) -> u32 {
        self.next_id
    }

    /// No session; the first gets 1.
    pub fn new() -> (r: PtyRegistry<T>)
        ensures
            r.wf(),
            r@ == Map::<u32, T>::empty(),
            r.next() == 1,
    {
        PtyRegistry { sessions: HashMap::new(), next_id: 1 }
    }

    /// Whether another identifier can be handed out.
    pub fn can_reserve(&self) -> (r: bool)
        ensures
            r == (self.next() < u32::MAX),
    {
        self.next_id < u32::MAX
    }

    /// Hands out the next identifier.
    pub fn reserve_id(&mut self) -> (id: u32)
        requires
            old(self).wf(),
            old(self).next() < u32::MAX,
        ensures
            final(self).wf(),
            id == old(self).next(),
            final(self).next() == old(self).next() + 1,
            final(self)@ == old(self)@,
            !old(self)@.contains_key(id),
    {
        let id = self.next_id;
        self.next_id = self.next_id + 1;
        id
    }

    /// Whether a session has the identifier `id`.
    pub fn contains(&self, id: u32) -> (r: bool)
        ensures
            r == self@.contains_key(id),
    {
        broadcast use vstd::std_specs::hash::group_hash_axioms;
        self.sessions.contains_key(&id)
    }

    /// Registers the session `s` under `id`, an identifier handed out
    /// before.
    pub fn insert(&mut self, id: u32, s: T)
        requires
            old(self).wf(),
            id < old(self).next(),
        ensures
            final(self).wf(),
            final(self)@ == old(self)@.insert(id, s),
            final(self).next() == old(self).next(),
    {
        broadcast use vstd::std_specs::hash::group_hash_axioms;
        self.sessions.insert(id, s);
    }

    /// Takes the session `id` out of the registry.
    pub fn remove(&mut self, id: u32) -> (r: Option<T>)
        requires
            old(self).wf(),
        ensures
            final(self).wf(),
            final(self).next() == old(self).next(),
            final(self)@ == old(self)@.remove(id),
            match r {
                Some(s) => old(self)@.contains_key(id) && old(self)@[id] == s,
                None => !old(self)@.contains_key(id),
            },
    {
        broadcast use vstd::std_specs::hash::group_hash_axioms;
        self.sessions.remove(&id)
    }

    /// The identifiers of the open sessions.
    pub fn ids(&self) -> (r: Vec<u32>)
        ensures
            r@.to_set() == self@.dom(),
            r@.no_duplicates(),
    {
        broadcast use vstd::std_specs::hash::group_hash_axioms;
        let mut r: Vec<u32> = Vec::new();
        let keys = self.sessions.keys();
        let ghost all = keys.remaining().unref();
        proof {
            assert(all.to_set() == self@.dom());
        }
        for k in it: keys
            invariant
                all == it.seq().unref(),
                r@ == all.take(it.index() as int),
        {
            r.push(*k);
            assert(all.take(it.index() + 1) =~= all.take(it.index() as int).push(*k));
        }
        assert(all.take(all.len() as int) =~= all);
        r
    }
}

/// A session taken out and put back leaves the registry as it was.
pub proof fn lemma_take_and_restore<T>(m: Map<u32, T>, id: u32)
    requires
        m.contains_key(id),
    ensures
        m.remove(id).insert(id, m[id]) == m,
{
    assert(m.remove(id).insert(id, m[id]) =~= m);
}

// ---------------------------------------------------------------------------
// The text sent to a session
// ---------------------------------------------------------------------------

/// The message when no session has the identifier.
pub open spec fn missing_message(id: u32) -> Seq<char> {
    "Терминал с ID "@ + decimal(id as nat) + " не найден"@
}

/// The message when a session to close is not there.
pub open spec fn already_closed_message(id: u32) -> Seq<char> {
    "Терминал с ID "@ + decimal(id as nat) + " не найден или уже закрыт"@
}

/// The greeting that a new session shows before the shell's own output.
pub open spec fn greeting(id: u32) -> Seq<char> {
    "Терминал X-Avto #"@ + decimal(id as nat) + " готов к работе!\r\n\nPS C:\\Users\\> "@
}

/// A text around the decimal notation of a number.
fn around_number(before: &str, n: u32, after: &str) -> (r: String)
    ensures
        r@ == before@ + decimal(n as nat) + after@,
{
    let mut v = to_chars(before);
    let d = decimal_chars(n as u64);
    push_all(&mut v, &d);
    push_str(&mut v, after);
    from_chars(&v)
}

/// The message when no session has the identifier `id`.
pub fn missing_terminal_message(id: u32) -> (r: String)
    ensures
        r@ == missing_message(id),
{
    around_number("Терминал с ID ", id, " не найден")
}

/// The message when the session `id` to close is not there.
pub fn already_closed_terminal_message(id: u32) -> (r: String)
    ensures
        r@ == already_closed_message(id),
{
    around_number("Терминал с ID ", id, " не найден или уже закрыт")
}

/// The greeting of the new session `id`.
pub fn terminal_greeting(id: u32) -> (r: String)
    ensures
        r@ == greeting(id),
{
    around_number("Терминал X-Avto #", id, " готов к работе!\r\n\nPS C:\\Users\\> ")
}

/// `s` with each `/` turned into `\`.
pub open spec fn backslashed(s: Seq<char>) -> Seq<char> {
    s.map_values(|c: char| if c == '/' { '\\' } else { c })
}

/// The command that changes the directory of a session: `Set-Location`
/// with the path's slashes turned into backslashes.
pub open spec fn change_directory_text(path: Seq<char>) -> Seq<char> {
    "Set-Location "@ + backslashed(path) + "\r\n"@
}

/// The command that changes the directory of a session to `path`.
pub fn change_directory_command(path: &str) -> (r: String)
    ensures
        r@ == change_directory_text(path@),
{
    let p = to_chars(path);
    let mut q: Vec<char> = Vec::new();
    let mut i: usize = 0;
    while i < p.len()
        invariant
            i <= p@.len(),
            q@ == backslashed(p@.take(i as int)),
        decreases p.len() - i,
    {
        let c = p[i];
        q.push(if c == '/' { '\\' } else { c });
        assert(backslashed(p@.take(i + 1)) =~= backslashed(p@.take(i as int)).push(
            if c == '/' { '\\' } else { c },
        ));
        i = i + 1;
    }
    assert(p@.take(p@.len() as int) =~= p@);
    let qs = from_chars(&q);
    concat3("Set-Location ", qs.as_str(), "\r\n")
}

/// The escape sequence that clears the screen and puts the cursor home.
pub fn clear_screen_sequence() -> (r: String)
    ensures
        r@ == "\x1b[2J\x1b[1;1H"@,
{
    String::from_str("\x1b[2J\x1b[1;1H")
}

/// The command that ends a session's shell.
pub fn exit_command() -> (r: String)
    ensures
        r@ == "exit\r\n"@,
{
    String::from_str("exit\r\n")
}

} // verus!
