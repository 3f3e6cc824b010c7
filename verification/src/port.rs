//! Server ports: reading a port number from text, and the order in which
//! the server looks for a port it can listen on.

use vstd::prelude::*;
use vstd::string::*;
use crate::text::{all_digits, decimal_digits, decimal_text, decimal_value, lemma_decimal_digits, lemma_decimal_value_push};

verus! {

/// The first port of the range searched when no port was chosen (the user
/// port range).
pub const FIRST_USER_PORT: u16 = 1024;

/// The last port of the searched range.
pub const LAST_USER_PORT: u16 = 49151;

/// The digits of a port text: the text without one leading `+`, if any.
pub open spec fn port_digits(s: Seq<char>) -> Seq<char> {
    if s.len() > 0 && s[0] == '+' {
        s.drop_first()
    } else {
        s
    }
}

/// The port that `s` denotes, if any: an optional `+`, then one or more
/// ASCII digits whose value is at most 65535. This is what `str::parse`
/// accepts for a `u16`.
pub open spec fn port_from_text(s: Seq<char>) -> Option<u16> {
    let d = port_digits(s);
    if d.len() > 0 && all_digits(d) && decimal_value(d) <= 65535 {
        Some(decimal_value(d) as u16)
    } else {
        None
    }
}

/// A text that does not denote a port.
pub struct PortParseError {
    pub input: String,
}

impl PortParseError {
    /// The message shown for the error: "`{input}` isn't a port number".
    pub fn message(&self) -> (m: String)
        ensures
            m@ == "`"@ + self.input@ + "` isn't a port number"@,
    {
        let mut m = String::from_str("`");
        m.append(self.input.as_str());
        m.append("` isn't a port number");
        m
    }
}

/// Reads a port number, as the command line's `--port` does.
pub fn is_port_valid(s: &str) -> (res: Result<u16, PortParseError>)
    ensures
        match res {
            Ok(p) => port_from_text(s@) == Some(p),
            Err(e) => port_from_text(s@) is None && e.input@ == s@,
        },
{
    let n = s.unicode_len();
    let mut start: usize = 0;
    if n > 0 && s.get_char(0) == '+' {
        start = 1;
    }
    assert(port_digits(s@) =~= s@.subrange(start as int, n as int));
    if start == n {
        return Err(PortParseError { input: String::from_str(s) });
    }
    let mut i: usize = start;
    let mut acc: u32 = 0;
    let mut too_large = false;
    while i < n
        invariant
            n == s@.len(),
            start <= i <= n,
            port_digits(s@) =~= s@.subrange(start as int, n as int),
            all_digits(s@.subrange(start as int, i as int)),
            !too_large ==> acc == decimal_value(s@.subrange(start as int, i as int)) && acc <= 65535,
            too_large ==> decimal_value(s@.subrange(start as int, i as int)) > 65535,
        decreases n - i,
    {
        let c = s.get_char(i);
        if !('0' <= c && c <= '9') {
            proof {
                let d = s@.subrange(start as int, n as int);
                assert(d[i - start] == c);
            }
            return Err(PortParseError { input: String::from_str(s) });
        }
        let ghost before = s@.subrange(start as int, i as int);
        proof {
            assert(s@.subrange(start as int, i + 1) =~= before.push(c));
            lemma_decimal_value_push(before, c);
        }
        if !too_large {
            let v = acc * 10 + ((c as u32) - ('0' as u32));
            if v > 65535 {
                too_large = true;
            } else {
                acc = v;
            }
        }
        i = i + 1;
    }
    if too_large {
        Err(PortParseError { input: String::from_str(s) })
    } else {
        Ok(acc as u16)
    }
}

/// Every port, written in base ten, reads back as the same port: a port
/// that the server reports can be given back to `--port`.
pub proof fn lemma_port_text_round_trip(p: u16)
    ensures
        port_from_text(decimal_digits(p as nat)) == Some(p),
{
    lemma_decimal_digits(p as nat);
    let d = decimal_digits(p as nat);
    assert(d[0] != '+');
    assert(port_digits(d) == d);
}

/// The number of ports in the searched range.
pub open spec fn user_range_len() -> nat {
    (LAST_USER_PORT - FIRST_USER_PORT + 1) as nat
}

/// The ports of the searched range, in increasing order.
pub open spec fn user_range() -> Seq<u16> {
    Seq::new(user_range_len(), |i: int| (FIRST_USER_PORT + i) as u16)
}

/// The ports that the server tries, in order: the requested port first, if
/// one was requested, then every port of the user range from the lowest.
pub open spec fn port_candidates(requested: Option<u16>) -> Seq<u16> {
    match requested {
        Some(p) => seq![p] + user_range(),
        None => user_range(),
    }
}

/// The search for a port to listen on. Each candidate is tried in turn;
/// the program that runs the search tells it when a candidate cannot be
/// listened on.
pub struct PortSearch {
    requested: Option<u16>,
    tried: usize,
}

/// What to do next in a port search.
#[derive(PartialEq, Eq, Structural, Debug, Clone, Copy)]
pub enum PortProbe {
    /// Try to listen on `port`; `requested` says whether it is the port that
    /// was asked for.
    Try { port: u16, requested: bool },
    /// Every candidate has been tried: there is no port to listen on.
    Exhausted,
}

impl PortSearch {
    /// The port that was asked for, if any.
    pub closed spec fn requested(&self) -> Option<u16> {
        self.requested
    }

    /// How many candidates have been tried and refused.
    pub closed spec fn tried(&self) -> nat {
        self.tried as nat
    }

    #[verifier::type_invariant]
    closed spec fn tried_in_bounds(&self) -> bool {
        self.tried <= port_candidates(self.requested).len()
    }

    /// A search that has tried nothing yet.
    pub fn new(requested: Option<u16>) -> (s: PortSearch)
        ensures
            s.requested() == requested,
            s.tried() == 0,
    {
        PortSearch { requested, tried: 0 }
    }

    /// The next candidate to try, or `Exhausted` once all were refused.
    pub fn next_probe(&self) -> (p: PortProbe)
        ensures
            self.tried() < port_candidates(self.requested()).len() ==> p == (PortProbe::Try {
                port: port_candidates(self.requested())[self.tried() as int],
                requested: self.requested() is Some && self.tried() == 0,
            }),
            self.tried() >= port_candidates(self.requested()).len() ==> p == PortProbe::Exhausted,
    {
        proof {
            use_type_invariant(self);
        }
        let range_len: usize = 48128;
        match self.requested {
            Some(p) => {
                if self.tried == 0 {
                    PortProbe::Try { port: p, requested: true }
                } else if self.tried - 1 < range_len {
                    let offset = (self.tried - 1) as u16;
                    PortProbe::Try { port: FIRST_USER_PORT + offset, requested: false }
                } else {
                    PortProbe::Exhausted
                }
            },
            None => {
                if self.tried < range_len {
                    let offset = self.tried as u16;
                    PortProbe::Try { port: FIRST_USER_PORT + offset, requested: false }
                } else {
                    PortProbe::Exhausted
                }
            },
        }
    }

    /// Records that the current candidate cannot be listened on.
    pub fn reject(&mut self)
        requires
            old(self).tried() < port_candidates(old(self).requested()).len(),
        ensures
            final(self).requested() == old(self).requested(),
            final(self).tried() == old(self).tried() + 1,
    {
        proof {
            use_type_invariant(&*self);
        }
        self.tried = self.tried + 1;
    }
}

/// The notice printed when the requested port is taken: "Selected port
/// {port} is not available. Searching for another available port...".
pub fn port_unavailable_notice(port: u16) -> (m: String)
    ensures
        m@ == "Selected port "@ + decimal_digits(port as nat)
            + " is not available. Searching for another available port..."@,
{
    let mut m = String::from_str("Selected port ");
    let digits = decimal_text(port as u64);
    m.append(digits.as_str());
    m.append(" is not available. Searching for another available port...");
    m
}

/// The search tries the requested port first and then the whole user range
/// in increasing order, so every port it can end on is either the requested
/// one or a user port, and it tries each user port exactly once.
pub proof fn lemma_port_candidates(requested: Option<u16>)
    ensures
        requested is Some ==> port_candidates(requested)[0] == requested->0,
        port_candidates(requested).len() == user_range_len() + if requested is Some { 1nat } else { 0nat },
        forall|i: int| 0 <= i < port_candidates(requested).len() ==> (
            requested == Some(#[trigger] port_candidates(requested)[i])
            || FIRST_USER_PORT <= port_candidates(requested)[i] <= LAST_USER_PORT),
        forall|q: u16| FIRST_USER_PORT <= q <= LAST_USER_PORT ==>
            #[trigger] port_candidates(requested).contains(q),
{
    let c = port_candidates(requested);
    let off: int = if requested is Some { 1 } else { 0 };
    assert forall|i: int| 0 <= i < c.len() implies (requested == Some(#[trigger] c[i])
        || FIRST_USER_PORT <= c[i] <= LAST_USER_PORT) by {
        if i >= off {
            assert(c[i] == user_range()[i - off]);
        }
    }
    assert forall|q: u16| FIRST_USER_PORT <= q <= LAST_USER_PORT implies #[trigger] c.contains(q) by {
        let i = (q - FIRST_USER_PORT) + off;
        assert(c[i] == user_range()[i - off]);
        assert(c[i] == q);
    }
}

} // verus!
