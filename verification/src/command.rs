//! The command grammar of the relay.
//!
//! A command arrives as one framed message of bytes. The recognized surface
//! is deliberately small:
//!
//! - `ECHO` — run the local echo command and send its output back;
//! - `FORWARD <addr> <key> <sub-command>` — dial `<addr>`, authenticate it
//!   against the signing identity `<key>` (64 hexadecimal digits), and
//!   deliver `<sub-command>` once that connection is established.
//!
//! Tokens are separated by single spaces; the address token is any nonempty
//! run of non-space bytes. Whether the address names a reachable host is a
//! matter for the dial, not for the grammar.

use vstd::prelude::*;

verus! {

/// A command that can be forwarded to the next hop and executed there.
#[derive(Clone, Copy, Debug, PartialEq, Eq, Structural)]
pub enum LocalCommand {
    /// Run the local echo command with no arguments.
    Echo,
}

/// The target of a forward: a host address and the signing identity the
/// dialed peer must prove. The identity is the 32 raw bytes decoded from
/// the hexadecimal token of the wire form.
#[derive(Debug)]
pub struct Hop {
    pub addr: Vec<u8>,
    pub id: Vec<u8>,
}

/// The mathematical value of a [`Hop`].
#[verifier::ext_equal]
pub struct HopModel {
    pub addr: Seq<u8>,
    pub id: Seq<u8>,
}

impl View for Hop {
    type V = HopModel;

    open spec fn view(&self) -> HopModel {
        HopModel { addr: self.addr@, id: self.id@ }
    }
}

/// A parsed command.
#[derive(Debug)]
pub enum Command {
    /// Run the local echo command and send its output to the caller.
    Echo,
    /// Relay `command` to the peer described by `hop`.
    Forward { hop: Hop, command: LocalCommand },
}

/// The mathematical value of a [`Command`].
#[verifier::ext_equal]
pub enum CommandModel {
    Echo,
    Forward { hop: HopModel, command: LocalCommand },
}

impl View for Command {
    type V = CommandModel;

    open spec fn view(&self) -> CommandModel {
        match self {
            Command::Echo => CommandModel::Echo,
            Command::Forward { hop, command } => CommandModel::Forward {
                hop: hop@,
                command: *command,
            },
        }
    }
}

// ---------------------------------------------------------------------------
// Wire literals
// ---------------------------------------------------------------------------

/// The bytes of the `ECHO` keyword.
pub open spec fn echo_bytes() -> Seq<u8> {
    seq![69u8, 67u8, 72u8, 79u8]
}

/// The bytes of the `FORWARD ` keyword, trailing separator included.
pub open spec fn forward_prefix() -> Seq<u8> {
    seq![70u8, 79u8, 82u8, 87u8, 65u8, 82u8, 68u8, 32u8]
}

/// The error token sent when a message is not valid text.
pub open spec fn non_text_bytes() -> Seq<u8> {
    seq![78u8, 79u8, 78u8, 95u8, 85u8, 84u8, 70u8, 56u8, 95u8, 67u8, 79u8, 77u8, 77u8, 65u8, 78u8, 68u8]
}

/// The error token sent when valid text does not parse as a command.
pub open spec fn invalid_bytes() -> Seq<u8> {
    seq![73u8, 78u8, 86u8, 65u8, 76u8, 73u8, 68u8, 95u8, 67u8, 79u8, 77u8, 77u8, 65u8, 78u8, 68u8]
}

/// The prefix of every failure report sent back to a caller.
pub open spec fn failure_prefix() -> Seq<u8> {
    seq![70u8, 97u8, 105u8, 108u8, 117u8, 114u8, 101u8, 58u8, 32u8]
}

pub fn echo_token() -> (r: Vec<u8>)
    ensures
        r@ == echo_bytes(),
{
    let mut v: Vec<u8> = Vec::new();
    v.push(69u8);
    v.push(67u8);
    v.push(72u8);
    v.push(79u8);
    proof {
        assert(v@ =~= echo_bytes());
    }
    v
}

pub fn forward_prefix_token() -> (r: Vec<u8>)
    ensures
        r@ == forward_prefix(),
{
    let mut v: Vec<u8> = Vec::new();
    v.push(70u8);
    v.push(79u8);
    v.push(82u8);
    v.push(87u8);
    v.push(65u8);
    v.push(82u8);
    v.push(68u8);
    v.push(32u8);
    proof {
        assert(v@ =~= forward_prefix());
    }
    v
}

pub fn non_text_token() -> (r: Vec<u8>)
    ensures
        r@ == non_text_bytes(),
{
    let mut v: Vec<u8> = Vec::new();
    v.push(78u8);
    v.push(79u8);
    v.push(78u8);
    v.push(95u8);
    v.push(85u8);
    v.push(84u8);
    v.push(70u8);
    v.push(56u8);
    v.push(95u8);
    v.push(67u8);
    v.push(79u8);
    v.push(77u8);
    v.push(77u8);
    v.push(65u8);
    v.push(78u8);
    v.push(68u8);
    proof {
        assert(v@ =~= non_text_bytes());
    }
    v
}

pub fn invalid_token() -> (r: Vec<u8>)
    ensures
        r@ == invalid_bytes(),
{
    let mut v: Vec<u8> = Vec::new();
    v.push(73u8);
    v.push(78u8);
    v.push(86u8);
    v.push(65u8);
    v.push(76u8);
    v.push(73u8);
    v.push(68u8);
    v.push(95u8);
    v.push(67u8);
    v.push(79u8);
    v.push(77u8);
    v.push(77u8);
    v.push(65u8);
    v.push(78u8);
    v.push(68u8);
    proof {
        assert(v@ =~= invalid_bytes());
    }
    v
}

pub fn failure_prefix_token() -> (r: Vec<u8>)
    ensures
        r@ == failure_prefix(),
{
    let mut v: Vec<u8> = Vec::new();
    v.push(70u8);
    v.push(97u8);
    v.push(105u8);
    v.push(108u8);
    v.push(117u8);
    v.push(114u8);
    v.push(101u8);
    v.push(58u8);
    v.push(32u8);
    proof {
        assert(v@ =~= failure_prefix());
    }
    v
}

// ---------------------------------------------------------------------------
// Hexadecimal identities
// ---------------------------------------------------------------------------

/// Whether `b` is an ASCII hexadecimal digit.
pub open spec fn is_hex_digit(b: u8) -> bool {
    (48 <= b && b <= 57) || (97 <= b && b <= 102) || (65 <= b && b <= 70)
}

/// The value of a hexadecimal digit.
pub open spec fn hex_val(b: u8) -> u8 {
    if 48 <= b && b <= 57 {
        (b - 48) as u8
    } else if 97 <= b && b <= 102 {
        (b - 87) as u8
    } else if 65 <= b && b <= 70 {
        (b - 55) as u8
    } else {
        0
    }
}

/// Whether every byte of `s` is a hexadecimal digit.
pub open spec fn all_hex(s: Seq<u8>) -> bool {
    forall|i: int| 0 <= i < s.len() ==> is_hex_digit(#[trigger] s[i])
}

/// The bytes encoded by a sequence of hexadecimal digits, two digits a byte.
pub open spec fn decode_hex_spec(s: Seq<u8>) -> Seq<u8> {
    Seq::new((s.len() / 2) as nat, |i: int| (16 * hex_val(s[2 * i]) + hex_val(s[2 * i + 1])) as u8)
}

fn is_hex(b: u8) -> (r: bool)
    ensures
        r == is_hex_digit(b),
{
    (48 <= b && b <= 57) || (97 <= b && b <= 102) || (65 <= b && b <= 70)
}

fn hex_digit_val(b: u8) -> (r: u8)
    requires
        is_hex_digit(b),
    ensures
        r == hex_val(b),
        r < 16,
{
    if b <= 57 {
        b - 48
    } else if b >= 97 {
        b - 87
    } else {
        b - 55
    }
}

/// Decodes the 64 hexadecimal digits at `start` into 32 bytes; fails
/// exactly when one of those bytes is not a hexadecimal digit.
fn decode_hex_64(data: &Vec<u8>, start: usize) -> (r: Option<Vec<u8>>)
    requires
        start + 64 <= data.len(),
    ensures
        ({
            let tok = data@.subrange(start as int, start as int + 64);
            match r {
                Some(v) => all_hex(tok) && v@ == decode_hex_spec(tok),
                None => !all_hex(tok),
            }
        }),
{
    let ghost tok = data@.subrange(start as int, start as int + 64);
    let mut out: Vec<u8> = Vec::new();
    let mut i: usize = 0;
    while i < 32
        invariant
            start + 64 <= data.len(),
            i <= 32,
            out.len() == i,
            tok == data@.subrange(start as int, start as int + 64),
            forall|j: int| 0 <= j < 2 * i ==> is_hex_digit(#[trigger] tok[j]),
            forall|j: int| 0 <= j < i ==> #[trigger] out@[j] == (16 * hex_val(tok[2 * j]) + hex_val(
                tok[2 * j + 1],
            )) as u8,
        decreases 32 - i,
    {
        let hi = data[start + 2 * i];
        let lo = data[start + 2 * i + 1];
        proof {
            assert(tok[2 * (i as int)] == hi);
            assert(tok[2 * (i as int) + 1] == lo);
        }
        if !is_hex(hi) {
            proof {
                assert(!is_hex_digit(tok[2 * (i as int)]));
            }
            return None;
        }
        if !is_hex(lo) {
            proof {
                assert(!is_hex_digit(tok[2 * (i as int) + 1]));
            }
            return None;
        }
        let v: u8 = 16 * hex_digit_val(hi) + hex_digit_val(lo);
        out.push(v);
        i += 1;
    }
    proof {
        assert(out@ =~= decode_hex_spec(tok));
    }
    Some(out)
}

// ---------------------------------------------------------------------------
// Scanning
// ---------------------------------------------------------------------------

/// The index of the first space at or after `i`, or the length of `s` if
/// there is none.
pub open spec fn find_space(s: Seq<u8>, i: int) -> int
    decreases s.len() - i when 0 <= i <= s.len()
{
    if i >= s.len() {
        s.len() as int
    } else if s[i] == 32u8 {
        i
    } else {
        find_space(s, i + 1)
    }
}

pub proof fn lemma_find_space(s: Seq<u8>, i: int)
    requires
        0 <= i <= s.len(),
    ensures
        i <= find_space(s, i) <= s.len(),
        find_space(s, i) < s.len() ==> s[find_space(s, i)] == 32u8,
        forall|j: int| i <= j < find_space(s, i) ==> s[j] != 32u8,
    decreases s.len() - i,
{
    if i < s.len() && s[i] != 32u8 {
        lemma_find_space(s, i + 1);
    }
}

fn find_space_from(data: &Vec<u8>, from: usize) -> (r: usize)
    requires
        from <= data.len(),
    ensures
        r as int == find_space(data@, from as int),
        from <= r <= data.len(),
{
    let mut i: usize = from;
    while i < data.len() && data[i] != 32u8
        invariant
            from <= i <= data.len(),
            find_space(data@, from as int) == find_space(data@, i as int),
        decreases data.len() - i,
    {
        proof {
            assert(find_space(data@, i as int) == find_space(data@, i + 1));
        }
        i += 1;
    }
    proof {
        assert(find_space(data@, i as int) == i);
    }
    i
}

/// Whether `pat` occurs in `data` at position `start`.
fn matches_at(data: &Vec<u8>, start: usize, pat: &Vec<u8>) -> (r: bool)
    requires
        start + pat.len() <= data.len(),
    ensures
        r == (data@.subrange(start as int, start as int + pat.len() as int) == pat@),
{
    let ghost seg = data@.subrange(start as int, start as int + pat.len() as int);
    let mut i: usize = 0;
    while i < pat.len()
        invariant
            i <= pat.len(),
            start + pat.len() <= data.len(),
            seg == data@.subrange(start as int, start as int + pat.len() as int),
            forall|j: int| 0 <= j < i ==> seg[j] == pat@[j],
        decreases pat.len() - i,
    {
        if data[start + i] != pat[i] {
            proof {
                assert(seg[i as int] == data@[start + i as int]);
                assert(seg != pat@);
            }
            return false;
        }
        proof {
            assert(seg[i as int] == data@[start + i as int]);
        }
        i += 1;
    }
    proof {
        assert(seg =~= pat@);
    }
    true
}

/// A copy of `data[start..end]`.
fn copy_range(data: &Vec<u8>, start: usize, end: usize) -> (r: Vec<u8>)
    requires
        start <= end <= data.len(),
    ensures
        r@ == data@.subrange(start as int, end as int),
{
    let mut out: Vec<u8> = Vec::new();
    let mut i: usize = start;
    while i < end
        invariant
            start <= i <= end <= data.len(),
            out@ == data@.subrange(start as int, i as int),
        decreases end - i,
    {
        out.push(data[i]);
        proof {
            assert(out@ =~= data@.subrange(start as int, i + 1));
        }
        i += 1;
    }
    out
}

// ---------------------------------------------------------------------------
// Parsing
// ---------------------------------------------------------------------------

/// The end of the address token of a forward message.
pub open spec fn addr_end(s: Seq<u8>) -> int {
    find_space(s, 8)
}

/// The end of the identity token of a forward message.
pub open spec fn key_end(s: Seq<u8>) -> int {
    find_space(s, addr_end(s) + 1)
}

/// The sub-command grammar: what may stand after the identity token of a
/// forward message, and equally what a queued command serializes back to.
pub open spec fn parse_local_spec(s: Seq<u8>) -> Option<LocalCommand> {
    if s == echo_bytes() {
        Some(LocalCommand::Echo)
    } else {
        None
    }
}

/// The serialized form of a queued command.
pub open spec fn local_bytes(c: LocalCommand) -> Seq<u8> {
    match c {
        LocalCommand::Echo => echo_bytes(),
    }
}

/// Whether `s` has the shape of a forward message: the `FORWARD ` keyword,
/// a nonempty address token, a 64-digit hexadecimal identity token, and a
/// recognized sub-command, separated by single spaces.
pub open spec fn is_forward(s: Seq<u8>) -> bool {
    &&& s.len() > 8
    &&& s.subrange(0, 8) == forward_prefix()
    &&& 8 < addr_end(s)
    &&& addr_end(s) < s.len()
    &&& key_end(s) - (addr_end(s) + 1) == 64
    &&& all_hex(s.subrange(addr_end(s) + 1, key_end(s)))
    &&& key_end(s) < s.len()
    &&& parse_local_spec(s.subrange(key_end(s) + 1, s.len() as int)) is Some
}

/// The value a message parses to, if it parses at all.
pub open spec fn parse_spec(s: Seq<u8>) -> Option<CommandModel> {
    if s == echo_bytes() {
        Some(CommandModel::Echo)
    } else if is_forward(s) {
        Some(
            CommandModel::Forward {
                hop: HopModel {
                    addr: s.subrange(8, addr_end(s)),
                    id: decode_hex_spec(s.subrange(addr_end(s) + 1, key_end(s))),
                },
                command: parse_local_spec(s.subrange(key_end(s) + 1, s.len() as int)).unwrap(),
            },
        )
    } else {
        None
    }
}

/// Serializes a queued command to its wire form.
pub fn serialize_local(c: &LocalCommand) -> (r: Vec<u8>)
    ensures
        r@ == local_bytes(*c),
{
    match c {
        LocalCommand::Echo => echo_token(),
    }
}

/// The serialized form of a queued command parses back to the same
/// command: what one relay queues for a forward, the next hop recognizes.
pub proof fn lemma_local_round_trip(c: LocalCommand)
    ensures
        parse_local_spec(local_bytes(c)) == Some(c),
{
}

/// Parses one framed message. Returns the parsed command exactly when the
/// message matches the grammar.
pub fn parse_command(data: &Vec<u8>) -> (r: Option<Command>)
    ensures
        match r {
            Some(c) => parse_spec(data@) == Some(c@),
            None => parse_spec(data@) is None,
        },
{
    let ghost s = data@;
    proof {
        assert(echo_bytes().len() == 4);
        assert(forward_prefix().len() == 8);
    }
    if data.len() == 4 {
        let echo = echo_token();
        if matches_at(data, 0, &echo) {
            proof {
                assert(s.subrange(0, 4) =~= s);
            }
            return Some(Command::Echo);
        }
        proof {
            assert(s.subrange(0, 4) =~= s);
            assert(s != echo_bytes());
            assert(!is_forward(s));
        }
        return None;
    }
    proof {
        assert(s != echo_bytes());
    }
    if data.len() <= 8 {
        proof {
            assert(!is_forward(s));
        }
        return None;
    }
    let fwd = forward_prefix_token();
    if !matches_at(data, 0, &fwd) {
        proof {
            assert(!is_forward(s));
        }
        return None;
    }
    let a_end = find_space_from(data, 8);
    proof {
        lemma_find_space(s, 8);
    }
    if a_end <= 8 || a_end >= data.len() {
        proof {
            assert(!is_forward(s));
        }
        return None;
    }
    let k_start = a_end + 1;
    let k_end = find_space_from(data, k_start);
    proof {
        lemma_find_space(s, k_start as int);
    }
    if k_end - k_start != 64 || k_end >= data.len() {
        proof {
            assert(!is_forward(s));
        }
        return None;
    }
    let key = match decode_hex_64(data, k_start) {
        Some(key) => key,
        None => {
            proof {
                assert(!is_forward(s));
            }
            return None;
        },
    };
    let sub_start = k_end + 1;
    let ghost sub = s.subrange(sub_start as int, s.len() as int);
    if data.len() - sub_start != 4 {
        proof {
            assert(sub.len() != echo_bytes().len());
            assert(parse_local_spec(sub) is None);
            assert(!is_forward(s));
        }
        return None;
    }
    let echo = echo_token();
    if !matches_at(data, sub_start, &echo) {
        proof {
            assert(s.subrange(sub_start as int, sub_start as int + 4) =~= sub);
            assert(parse_local_spec(sub) is None);
            assert(!is_forward(s));
        }
        return None;
    }
    let addr = copy_range(data, 8, a_end);
    proof {
        assert(s.subrange(sub_start as int, sub_start as int + 4) =~= sub);
        assert(parse_local_spec(sub) == Some(LocalCommand::Echo));
        assert(is_forward(s));
    }
    Some(Command::Forward { hop: Hop { addr, id: key }, command: LocalCommand::Echo })
}

} // verus!
