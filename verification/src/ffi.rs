//! The logic behind the C ABI: its JSON string encoder for out-of-band error
//! replies, and the response cache of the two-call buffer protocol, which makes
//! a mutating command (`step`) execute exactly once however many buffer-sizing
//! retries deliver its reply.

use vstd::prelude::*;
use crate::text::{digit_char};

verus! {

/// The lowercase hexadecimal digit for `d` (`d < 16`).
pub open spec fn hex_char(d: nat) -> char {
    if d < 10 {
        digit_char(d)
    } else if d == 10 {
        'a'
    } else if d == 11 {
        'b'
    } else if d == 12 {
        'c'
    } else if d == 13 {
        'd'
    } else if d == 14 {
        'e'
    } else {
        'f'
    }
}

/// The JSON escape of one character: `"` and `\` are backslashed; newline,
/// carriage return and tab use their short forms; other control characters
/// (below `0x20`) are written `\u00xx` in lowercase hex; anything else stands
/// for itself.
pub open spec fn json_char(c: char) -> Seq<char> {
    if c == '"' {
        seq!['\\', '"']
    } else if c == '\\' {
        seq!['\\', '\\']
    } else if c == '\n' {
        seq!['\\', 'n']
    } else if c == '\r' {
        seq!['\\', 'r']
    } else if c == '\t' {
        seq!['\\', 't']
    } else if (c as u32) < 0x20 {
        seq!['\\', 'u', '0', '0', hex_char((c as u32 / 16) as nat), hex_char((c as u32 % 16) as nat)]
    } else {
        seq![c]
    }
}

/// The escapes of every character, in order.
pub open spec fn json_escaped(s: Seq<char>) -> Seq<char>
    decreases s.len(),
{
    if s.len() == 0 {
        Seq::empty()
    } else {
        json_escaped(s.drop_last()) + json_char(s.last())
    }
}

/// `s` as a JSON string literal.
pub open spec fn spec_json_string(s: Seq<char>) -> Seq<char> {
    seq!['"'] + json_escaped(s) + seq!['"']
}

fn hex(d: u32) -> (c: char)
    requires
        d < 16,
    ensures
        c == hex_char(d as nat),
{
    if d == 0 { '0' }
    else if d == 1 { '1' }
    else if d == 2 { '2' }
    else if d == 3 { '3' }
    else if d == 4 { '4' }
    else if d == 5 { '5' }
    else if d == 6 { '6' }
    else if d == 7 { '7' }
    else if d == 8 { '8' }
    else if d == 9 { '9' }
    else if d == 10 { 'a' }
    else if d == 11 { 'b' }
    else if d == 12 { 'c' }
    else if d == 13 { 'd' }
    else if d == 14 { 'e' }
    else { 'f' }
}

/// Append the JSON escape of `c` to `out`.
fn push_escaped(out: &mut String, c: char)
    ensures
        final(out)@ == old(out)@ + json_char(c),
{
    if c == '"' {
        out.push('\\');
        out.push('"');
    } else if c == '\\' {
        out.push('\\');
        out.push('\\');
    } else if c == '\n' {
        out.push('\\');
        out.push('n');
    } else if c == '\r' {
        out.push('\\');
        out.push('r');
    } else if c == '\t' {
        out.push('\\');
        out.push('t');
    } else if (c as u32) < 0x20 {
        let code = c as u32;
        out.push('\\');
        out.push('u');
        out.push('0');
        out.push('0');
        out.push(hex(code / 16));
        out.push(hex(code % 16));
    } else {
        out.push(c);
    }
    proof {
        assert(final(out)@ =~= old(out)@ + json_char(c));
    }
}

/// Encode a string as a JSON string literal (quotes + minimal escaping).
pub fn json_string(s: &str) -> (r: String)
    ensures
        r@ == spec_json_string(s@),
{
    let mut out = String::new();
    out.push('"');
    let n = s.unicode_len();
    let mut i: usize = 0;
    while i < n
        invariant
            i <= n,
            n == s@.len(),
            out@ == seq!['"'] + json_escaped(s@.take(i as int)),
        decreases n - i,
    {
        let c = s.get_char(i);
        push_escaped(&mut out, c);
        proof {
            assert(s@.take(i as int + 1).drop_last() =~= s@.take(i as int));
            assert(out@ =~= seq!['"'] + json_escaped(s@.take(i as int + 1)));
        }
        i = i + 1;
    }
    out.push('"');
    proof {
        assert(s@.take(n as int) =~= s@);
    }
    out
}

/// The out-of-band error reply of the C ABI, `{"ok":false,"error":<message>}`.
pub fn fallback_reply(message: &str) -> (r: String)
    ensures
        r@ == "{\"ok\":false,\"error\":"@ + spec_json_string(message@) + seq!['}'],
{
    let mut r = String::from_str("{\"ok\":false,\"error\":");
    let quoted = json_string(message);
    r.append(quoted.as_str());
    r.push('}');
    r
}

/// What one call of the buffer protocol reports: the reply length in bytes
/// (without the terminating NUL), and whether the reply was written out.
#[derive(Clone, Copy, Debug, PartialEq, Eq, Structural)]
pub struct Delivery {
    pub len: usize,
    pub delivered: bool,
}

/// The reply computed for the last command but not yet delivered: the command's
/// bytes and the reply text.
pub struct PendingReply {
    pending: Option<(Vec<u8>, String)>,
}

impl View for PendingReply {
    type V = Option<(Seq<u8>, Seq<char>)>;

    closed spec fn view(&self) -> Option<(Seq<u8>, Seq<char>)> {
        match &self.pending {
            Some((cmd, reply)) => Some((cmd@, reply@)),
            None => None,
        }
    }
}

/// The byte length of a reply.
pub open spec fn reply_len(reply: Seq<char>) -> nat {
    vstd::utf8::encode_utf8(reply).len()
}

/// Whether a delivery attempt into `cap` bytes (`has_buffer` false for no
/// buffer) writes the pending reply out.
pub open spec fn fits(v: Option<(Seq<u8>, Seq<char>)>, cap: usize, has_buffer: bool) -> bool {
    v matches Some((_, reply)) && (reply_len(reply) as usize) < cap && has_buffer
}

/// The pending state after one delivery attempt.
pub open spec fn after_attempt(v: Option<(Seq<u8>, Seq<char>)>, cap: usize, has_buffer: bool) -> Option<
    (Seq<u8>, Seq<char>),
> {
    if fits(v, cap, has_buffer) {
        None
    } else {
        v
    }
}

/// The pending state after a series of delivery attempts.
pub open spec fn after_attempts(
    v: Option<(Seq<u8>, Seq<char>)>,
    attempts: Seq<(usize, bool)>,
) -> Option<(Seq<u8>, Seq<char>)>
    decreases attempts.len(),
{
    if attempts.len() == 0 {
        v
    } else {
        let prev = after_attempts(v, attempts.drop_last());
        after_attempt(prev, attempts.last().0, attempts.last().1)
    }
}

/// A command executes once however many buffer-sizing calls deliver its
/// reply: after its reply is stored, a series of attempts none of which fits
/// leaves the same reply pending, so a repeat of the command is a retry that
/// reuses it; the first attempt that fits clears it, so the next identical
/// command executes afresh.
pub proof fn law_exactly_once(cmd: Seq<u8>, reply: Seq<char>, attempts: Seq<(usize, bool)>)
    requires
        forall|i: int|
            0 <= i < attempts.len() ==> !fits(
                Some((cmd, reply)),
                (#[trigger] attempts[i]).0,
                attempts[i].1,
            ),
    ensures
        after_attempts(Some((cmd, reply)), attempts) == Some((cmd, reply)),
        forall|cap: usize, has_buffer: bool|
            fits(Some((cmd, reply)), cap, has_buffer) ==> after_attempt(
                after_attempts(Some((cmd, reply)), attempts),
                cap,
                has_buffer,
            ) is None,
    decreases attempts.len(),
{
    if attempts.len() > 0 {
        let prefix = attempts.drop_last();
        assert forall|i: int| 0 <= i < prefix.len() implies !fits(
            Some((cmd, reply)),
            (#[trigger] prefix[i]).0,
            prefix[i].1,
        ) by {
            assert(prefix[i] == attempts[i]);
        }
        law_exactly_once(cmd, reply, prefix);
        assert(!fits(Some((cmd, reply)), attempts[attempts.len() - 1].0, attempts[attempts.len() - 1].1));
    }
}

impl PendingReply {
    /// No reply pending.
    pub fn new() -> (p: PendingReply)
        ensures
            p@ is None,
    {
        PendingReply { pending: None }
    }

    /// Whether `cmd` repeats the command whose reply is still pending; such a
    /// call reuses the reply instead of executing the command again.
    pub fn is_retry(&self, cmd: &[u8]) -> (r: bool)
        ensures
            r == (self@ matches Some((pending_cmd, _)) && pending_cmd == cmd@),
    {
        match &self.pending {
            None => false,
            Some((bytes, _)) => {
                if bytes.len() != cmd.len() {
                    return false;
                }
                let mut i: usize = 0;
                while i < cmd.len()
                    invariant
                        i <= cmd@.len(),
                        bytes@.len() == cmd@.len(),
                        self@ matches Some((pc, _)) && pc == bytes@,
                        forall|j: int| 0 <= j < i ==> bytes@[j] == cmd@[j],
                    decreases cmd.len() - i,
                {
                    if bytes[i] != cmd[i] {
                        return false;
                    }
                    i = i + 1;
                }
                assert(bytes@ =~= cmd@);
                true
            },
        }
    }

    /// Remember the reply computed for `cmd`.
    pub fn store(&mut self, cmd: &[u8], reply: String)
        ensures
            final(self)@ == Some((cmd@, reply@)),
    {
        let mut bytes: Vec<u8> = Vec::new();
        let mut i: usize = 0;
        while i < cmd.len()
            invariant
                i <= cmd@.len(),
                bytes@ == cmd@.take(i as int),
            decreases cmd.len() - i,
        {
            bytes.push(cmd[i]);
            proof {
                assert(cmd@.take(i as int + 1) =~= cmd@.take(i as int).push(cmd@[i as int]));
            }
            i = i + 1;
        }
        proof {
            assert(cmd@.take(cmd@.len() as int) =~= cmd@);
        }
        self.pending = Some((bytes, reply));
    }

    /// The pending reply, if any.
    pub fn reply(&self) -> (r: Option<&String>)
        ensures
            self@ matches Some((_, reply)) ==> (r matches Some(s) && s@ == reply),
            self@ is None ==> r is None,
    {
        match &self.pending {
            Some((_, reply)) => Some(reply),
            None => None,
        }
    }

    /// One delivery attempt into a caller buffer of `cap` bytes (`has_buffer`
    /// false for a null buffer). The reply plus a NUL fits when its length is
    /// below `cap`; it is then written and forgotten, so the next identical
    /// command executes afresh. Otherwise it stays pending for the retry.
    pub fn deliver(&mut self, cap: usize, has_buffer: bool) -> (d: Delivery)
        requires
            old(self)@ is Some,
        ensures
            old(self)@ matches Some((_, reply)) && d.len == reply_len(reply) as usize,
            d.delivered == ((d.len as nat) < cap && has_buffer),
            d.delivered == fits(old(self)@, cap, has_buffer),
            final(self)@ == after_attempt(old(self)@, cap, has_buffer),
    {
        let len = match &self.pending {
            Some((_, reply)) => reply.as_str().len(),
            None => 0,
        };
        let delivered = len < cap && has_buffer;
        if delivered {
            self.pending = None;
        }
        Delivery { len, delivered }
    }
}

/// The status code reporting a reply length: the length itself, saturated at
/// `i32::MAX`.
pub fn length_code(len: usize) -> (code: i32)
    ensures
        len <= i32::MAX ==> code == len,
        len > i32::MAX ==> code == i32::MAX,
{
    if len <= 2147483647usize {
        len as i32
    } else {
        2147483647i32
    }
}

} // verus!
