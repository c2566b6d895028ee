//! The wire codec and the call-id allocator.
//!
//! One JSON document per text frame. Outbound, a method call is framed
//! as `{"id":N,"method":"Domain.method","params":{...}}`; a call
//! addressed to a target session is serialised first and then wrapped,
//! as a string, inside `Target.sendMessageToTarget` under a second
//! fresh call id. Everything here works on bytes, stated over
//! `Seq<u8>`.

use vstd::prelude::*;
use vstd::string::StringSliceAdditionalSpecFns;

use crate::{CallId, MethodDestination};

verus! {

/// The engine's call-id source. Ids are handed out in order: each
/// allocation returns the counter and leaves it one larger, so the ids
/// a single engine allocates are strictly increasing.
pub struct CallIdGenerator {
    pub next: CallId,
}

/// One allocation: `issued` came out, and the counter moved up by one.
pub open spec fn fresh_step(
    before: &CallIdGenerator,
    after: &CallIdGenerator,
    issued: CallId,
) -> bool {
    &&& issued == before.next
    &&& after.next == before.next + 1
}

impl CallIdGenerator {
    pub fn new() -> (r: CallIdGenerator)
        ensures
            r.next == 0,
    {
        CallIdGenerator { next: 0 }
    }

    /// Allocate the next call id.
    pub fn fresh(&mut self) -> (r: CallId)
        requires
            old(self).next < CallId::MAX,
        ensures
            fresh_step(old(self), final(self), r),
    {
        let id = self.next;
        self.next = self.next + 1;
        id
    }
}

/// Call ids allocated by a single engine are strictly increasing:
/// whatever was issued before an allocation lies below the counter,
/// and the allocation returns the counter.
pub proof fn lemma_call_ids_strictly_increasing(
    g0: &CallIdGenerator,
    g1: &CallIdGenerator,
    g2: &CallIdGenerator,
    first: CallId,
    second: CallId,
)
    requires
        fresh_step(g0, g1, first),
        fresh_step(g1, g2, second),
    ensures
        first < second,
{
}

/// `true` or `false` as written in JSON.
pub open spec fn spec_bool_val_bytes(b: bool) -> Seq<u8> {
    if b {
        seq![116u8, 114u8, 117u8, 101u8]
    } else {
        seq![102u8, 97u8, 108u8, 115u8, 101u8]
    }
}

/// ASCII decimal digit.
pub open spec fn is_digit(b: u8) -> bool {
    48 <= b <= 57
}

/// The decimal digits of `n`, most significant first.
pub open spec fn spec_dec_digits(n: nat) -> Seq<u8>
    decreases n,
{
    if n < 10 {
        seq![(48 + n) as u8]
    } else {
        spec_dec_digits((n / 10) as nat).push((48 + n % 10) as u8)
    }
}

/// Lower-case hex digit of a value below 16.
pub open spec fn spec_hex_digit(n: u8) -> u8 {
    if n < 10 {
        (48 + n) as u8
    } else {
        (87 + n) as u8
    }
}

/// How one byte of a JSON string value is written: quote and backslash
/// are escaped, control bytes become `\u00XX`, everything else stands
/// as itself.
pub open spec fn spec_escape_byte(b: u8) -> Seq<u8> {
    if b == 34 {
        seq![92u8, 34u8]
    } else if b == 92 {
        seq![92u8, 92u8]
    } else if b < 32 {
        seq![92u8, 117u8, 48u8, 48u8, spec_hex_digit(b / 16), spec_hex_digit(b % 16)]
    } else {
        seq![b]
    }
}

/// The body of a JSON string value holding exactly the bytes `s`.
pub open spec fn spec_escape(s: Seq<u8>) -> Seq<u8>
    decreases s.len(),
{
    if s.len() == 0 {
        Seq::empty()
    } else {
        spec_escape_byte(s[0]) + spec_escape(s.drop_first())
    }
}

/// Escaping distributes over appending one byte at the end.
pub proof fn lemma_escape_push(s: Seq<u8>, b: u8)
    ensures
        spec_escape(s.push(b)) == spec_escape(s) + spec_escape_byte(b),
    decreases s.len(),
{
    if s.len() == 0 {
        let t = s.push(b);
        assert(t.len() == 1);
        assert(t[0] == b);
        assert(t.drop_first() =~= Seq::<u8>::empty());
        assert(spec_escape(t) == spec_escape_byte(b) + spec_escape(t.drop_first()));
        assert(spec_escape(t.drop_first()) =~= Seq::<u8>::empty());
        assert(spec_escape(s) =~= Seq::<u8>::empty());
        assert(spec_escape(t) =~= spec_escape(s) + spec_escape_byte(b));
    } else {
        assert(s.push(b)[0] == s[0]);
        assert(s.push(b).drop_first() =~= s.drop_first().push(b));
        lemma_escape_push(s.drop_first(), b);
        assert(spec_escape(s.push(b)) == spec_escape_byte(s[0]) + (spec_escape(s.drop_first())
            + spec_escape_byte(b)));
        assert(spec_escape_byte(s[0]) + (spec_escape(s.drop_first()) + spec_escape_byte(b)) =~= (
        spec_escape_byte(s[0]) + spec_escape(s.drop_first())) + spec_escape_byte(b));
    }
}

/// Append every byte of `piece` to `out`.
pub fn push_bytes(out: &mut Vec<u8>, piece: &[u8])
    ensures
        final(out)@ == old(out)@ + piece@,
{
    let mut i: usize = 0;
    while i < piece.len()
        invariant
            i <= piece@.len(),
            out@ == old(out)@ + piece@.subrange(0, i as int),
        decreases piece@.len() - i,
    {
        out.push(piece[i]);
        i = i + 1;
    }
    assert(piece@.subrange(0, piece@.len() as int) =~= piece@);
}

/// Append the bytes of a string slice to `out`.
pub fn push_str_bytes(out: &mut Vec<u8>, piece: &str)
    ensures
        final(out)@ == old(out)@ + piece.spec_bytes(),
{
    push_bytes(out, piece.as_bytes());
}

fn hex_digit(n: u8) -> (r: u8)
    requires
        n < 16,
    ensures
        r == spec_hex_digit(n),
{
    if n < 10 {
        48 + n
    } else {
        87 + n
    }
}

/// Append the escaped form of `piece` to `out`.
pub fn push_escaped(out: &mut Vec<u8>, piece: &[u8])
    ensures
        final(out)@ == old(out)@ + spec_escape(piece@),
{
    let n = piece.len();
    let mut i: usize = 0;
    while i < n
        invariant
            n == piece@.len(),
            i <= n,
            out@ == old(out)@ + spec_escape(piece@.subrange(0, i as int)),
        decreases n - i,
    {
        let b = piece[i];
        if b == 34 {
            out.push(92);
            out.push(34);
        } else if b == 92 {
            out.push(92);
            out.push(92);
        } else if b < 32 {
            out.push(92);
            out.push(117);
            out.push(48);
            out.push(48);
            out.push(hex_digit(b / 16));
            out.push(hex_digit(b % 16));
        } else {
            out.push(b);
        }
        proof {
            lemma_escape_push(piece@.subrange(0, i as int), b);
            assert(piece@.subrange(0, i + 1) =~= piece@.subrange(0, i as int).push(b));
            assert(out@ =~= old(out)@ + spec_escape(piece@.subrange(0, i + 1)));
        }
        i = i + 1;
    }
    assert(piece@.subrange(0, piece@.len() as int) =~= piece@);
}

/// Append the escaped form of a string slice to `out`.
pub fn push_escaped_str(out: &mut Vec<u8>, piece: &str)
    ensures
        final(out)@ == old(out)@ + spec_escape(piece.spec_bytes()),
{
    push_escaped(out, piece.as_bytes());
}

/// Append the decimal digits of `n` to `out`.
pub fn push_dec(out: &mut Vec<u8>, n: u64)
    ensures
        final(out)@ == old(out)@ + spec_dec_digits(n as nat),
    decreases n,
{
    if n < 10 {
        out.push(48 + (n as u8));
    } else {
        push_dec(out, n / 10);
        out.push(48 + ((n % 10) as u8));
    }
}

/// `{"id":` — how a call opens.
pub open spec fn lit_call_open() -> Seq<u8> {
    seq![123u8, 34u8, 105u8, 100u8, 34u8, 58u8]
}

/// `,"method":"` — between the id and the method name.
pub open spec fn lit_method() -> Seq<u8> {
    seq![44u8, 34u8, 109u8, 101u8, 116u8, 104u8, 111u8, 100u8, 34u8, 58u8, 34u8]
}

/// `","params":` — between the method name and the params object.
pub open spec fn lit_params() -> Seq<u8> {
    seq![34u8, 44u8, 34u8, 112u8, 97u8, 114u8, 97u8, 109u8, 115u8, 34u8, 58u8]
}

/// The whole frame of one method call: id, method name, params.
pub open spec fn spec_render_call(id: nat, method: Seq<u8>, params: Seq<u8>) -> Seq<u8> {
    lit_call_open() + spec_dec_digits(id) + lit_method() + method + lit_params() + params + seq![
        125u8,
    ]
}

fn push_call_open(out: &mut Vec<u8>)
    ensures
        final(out)@ == old(out)@ + lit_call_open(),
{
    out.push(123);
    out.push(34);
    out.push(105);
    out.push(100);
    out.push(34);
    out.push(58);
    assert(out@ =~= old(out)@ + lit_call_open());
}

fn push_lit_method(out: &mut Vec<u8>)
    ensures
        final(out)@ == old(out)@ + lit_method(),
{
    out.push(44);
    out.push(34);
    out.push(109);
    out.push(101);
    out.push(116);
    out.push(104);
    out.push(111);
    out.push(100);
    out.push(34);
    out.push(58);
    out.push(34);
    assert(out@ =~= old(out)@ + lit_method());
}

fn push_lit_params(out: &mut Vec<u8>)
    ensures
        final(out)@ == old(out)@ + lit_params(),
{
    out.push(34);
    out.push(44);
    out.push(34);
    out.push(112);
    out.push(97);
    out.push(114);
    out.push(97);
    out.push(109);
    out.push(115);
    out.push(34);
    out.push(58);
    assert(out@ =~= old(out)@ + lit_params());
}

/// Frame one method call addressed to the browser endpoint.
pub fn render_call(id: CallId, method: &str, params: &[u8]) -> (r: Vec<u8>)
    ensures
        r@ == spec_render_call(id as nat, method.spec_bytes(), params@),
{
    let mut out: Vec<u8> = Vec::new();
    push_call_open(&mut out);
    push_dec(&mut out, id);
    push_lit_method(&mut out);
    push_str_bytes(&mut out, method);
    push_lit_params(&mut out);
    push_bytes(&mut out, params);
    out.push(125);
    proof {
        assert(out@ =~= spec_render_call(id as nat, method.spec_bytes(), params@));
    }
    out
}

/// The params object of `Target.sendMessageToTarget`: the session and
/// the inner frame carried as a string.
pub open spec fn spec_session_params(session: Seq<u8>, inner: Seq<u8>) -> Seq<u8> {
    lit_session_open() + spec_escape(session) + lit_message() + spec_escape(inner) + seq![
        34u8,
        125u8,
    ]
}

/// `{"sessionId":"` — how the wrapper params open.
pub open spec fn lit_session_open() -> Seq<u8> {
    seq![
        123u8,
        34u8,
        115u8,
        101u8,
        115u8,
        115u8,
        105u8,
        111u8,
        110u8,
        73u8,
        100u8,
        34u8,
        58u8,
        34u8,
    ]
}

/// `","message":"` — between the session and the carried frame.
pub open spec fn lit_message() -> Seq<u8> {
    seq![34u8, 44u8, 34u8, 109u8, 101u8, 115u8, 115u8, 97u8, 103u8, 101u8, 34u8, 58u8, 34u8]
}

fn push_lit_session_open(out: &mut Vec<u8>)
    ensures
        final(out)@ == old(out)@ + lit_session_open(),
{
    out.push(123);
    out.push(34);
    out.push(115);
    out.push(101);
    out.push(115);
    out.push(115);
    out.push(105);
    out.push(111);
    out.push(110);
    out.push(73);
    out.push(100);
    out.push(34);
    out.push(58);
    out.push(34);
    assert(out@ =~= old(out)@ + lit_session_open());
}

fn push_lit_message(out: &mut Vec<u8>)
    ensures
        final(out)@ == old(out)@ + lit_message(),
{
    out.push(34);
    out.push(44);
    out.push(34);
    out.push(109);
    out.push(101);
    out.push(115);
    out.push(115);
    out.push(97);
    out.push(103);
    out.push(101);
    out.push(34);
    out.push(58);
    out.push(34);
    assert(out@ =~= old(out)@ + lit_message());
}

/// The name of the wrapping method.
pub open spec fn spec_send_message_to_target() -> Seq<u8> {
    "Target.sendMessageToTarget".spec_bytes()
}

/// Frame one method call towards `destination`, allocating what it
/// takes from `gen`.
///
/// To the browser, one id is spent and the frame is the call itself.
/// To a target session, two distinct ids are spent: the call is framed
/// under the first, and that frame is wrapped, escaped as a string,
/// inside `Target.sendMessageToTarget` under the second. The returned
/// call id is the inner one — the id the response to the call carries.
pub fn create_msg_to_send(
    gen: &mut CallIdGenerator,
    method: &str,
    params: &[u8],
    destination: &MethodDestination,
) -> (r: (Vec<u8>, CallId))
    requires
        old(gen).next < CallId::MAX - 1,
    ensures
        destination is Browser ==> {
            &&& final(gen).next == old(gen).next + 1
            &&& r.1 == old(gen).next
            &&& r.0@ == spec_render_call(r.1 as nat, method.spec_bytes(), params@)
        },
        destination matches MethodDestination::Target(session) ==> {
            &&& final(gen).next == old(gen).next + 2
            &&& r.1 == old(gen).next
            &&& r.0@ == spec_render_call(
                (old(gen).next + 1) as nat,
                spec_send_message_to_target(),
                spec_session_params(
                    vstd::utf8::encode_utf8(session.0@),
                    spec_render_call(r.1 as nat, method.spec_bytes(), params@),
                ),
            )
            &&& r.1 != old(gen).next + 1
        },
{
    let inner_id = gen.fresh();
    let inner = render_call(inner_id, method, params);
    match destination {
        MethodDestination::Browser => (inner, inner_id),
        MethodDestination::Target(session) => {
            let outer_id = gen.fresh();
            let mut wrapper_params: Vec<u8> = Vec::new();
            push_lit_session_open(&mut wrapper_params);
            push_escaped_str(&mut wrapper_params, session.0.as_str());
            push_lit_message(&mut wrapper_params);
            push_escaped(&mut wrapper_params, inner.as_slice());
            wrapper_params.push(34);
            wrapper_params.push(125);
            proof {
                assert(wrapper_params@ =~= spec_session_params(vstd::utf8::encode_utf8(session.0@), inner@));
            }
            let frame = render_call(
                outer_id,
                "Target.sendMessageToTarget",
                wrapper_params.as_slice(),
            );
            (frame, inner_id)
        },
    }
}

/// Frame a call with the session of a tab when it has one, else
/// towards the browser: how every target-scoped task goes out.
pub fn create_msg_to_send_with_session_id(
    gen: &mut CallIdGenerator,
    method: &str,
    params: &[u8],
    session_id: &Option<crate::SessionId>,
) -> (r: (Vec<u8>, CallId))
    requires
        old(gen).next < CallId::MAX - 1,
    ensures
        session_id is None ==> {
            &&& final(gen).next == old(gen).next + 1
            &&& r.1 == old(gen).next
            &&& r.0@ == spec_render_call(r.1 as nat, method.spec_bytes(), params@)
        },
        session_id matches Some(session) ==> {
            &&& final(gen).next == old(gen).next + 2
            &&& r.1 == old(gen).next
            &&& r.0@ == spec_render_call(
                (old(gen).next + 1) as nat,
                spec_send_message_to_target(),
                spec_session_params(
                    vstd::utf8::encode_utf8(session.0@),
                    spec_render_call(r.1 as nat, method.spec_bytes(), params@),
                ),
            )
        },
{
    match session_id {
        Some(session) => {
            let destination = MethodDestination::Target(session.clone());
            create_msg_to_send(gen, method, params, &destination)
        },
        None => {
            let destination = MethodDestination::Browser;
            create_msg_to_send(gen, method, params, &destination)
        },
    }
}


/// End of the maximal run of decimal digits starting at `i`.
pub open spec fn digit_run_end(s: Seq<u8>, i: int) -> int
    decreases s.len() - i when 0 <= i <= s.len()
{
    if i < s.len() && is_digit(s[i]) {
        digit_run_end(s, i + 1)
    } else {
        i
    }
}

/// The value of a run of decimal digits, most significant first.
pub open spec fn spec_parse_dec(digits: Seq<u8>) -> nat
    decreases digits.len(),
{
    if digits.len() == 0 {
        0
    } else {
        spec_parse_dec(digits.drop_last()) * 10 + (digits.last() - 48) as nat
    }
}

/// The digit run ends exactly where the digits end.
pub proof fn lemma_digit_run(s: Seq<u8>, i: int, e: int)
    requires
        0 <= i <= e <= s.len(),
        forall|j: int| i <= j < e ==> is_digit(#[trigger] s[j]),
        e == s.len() || !is_digit(s[e]),
    ensures
        digit_run_end(s, i) == e,
    decreases e - i,
{
    if i < e {
        assert(is_digit(s[i]));
        lemma_digit_run(s, i + 1, e);
    }
}

/// Rendering a number and reading the digits back returns the number.
pub proof fn lemma_dec_digits_round_trip(n: nat)
    ensures
        spec_parse_dec(spec_dec_digits(n)) == n,
        forall|i: int|
            0 <= i < spec_dec_digits(n).len() ==> is_digit(#[trigger] spec_dec_digits(n)[i]),
        spec_dec_digits(n).len() >= 1,
    decreases n,
{
    if n < 10 {
        let d = spec_dec_digits(n);
        assert(d == seq![(48 + n) as u8]);
        assert(d.drop_last() =~= Seq::<u8>::empty());
        assert(spec_parse_dec(Seq::<u8>::empty()) == 0);
        assert(spec_parse_dec(d) == spec_parse_dec(d.drop_last()) * 10 + (d.last() - 48) as nat);
        assert(spec_parse_dec(d) == (d.last() - 48) as nat);
    } else {
        lemma_dec_digits_round_trip(n / 10);
        let p = spec_dec_digits((n / 10) as nat);
        let d = spec_dec_digits(n);
        assert(d == p.push((48 + n % 10) as u8));
        assert(d.drop_last() =~= p);
        assert(spec_parse_dec(d) == spec_parse_dec(p) * 10 + ((d.last() - 48) as nat));
        assert(d.last() == (48 + n % 10) as u8);
        assert(spec_parse_dec(d) == (n / 10) * 10 + n % 10);
        vstd::arithmetic::div_mod::lemma_fundamental_div_mod(n as int, 10);
        assert forall|i: int| 0 <= i < d.len() implies is_digit(#[trigger] d[i]) by {
            if i < p.len() {
                assert(d[i] == p[i]);
            } else {
                assert(d[i] == (48 + n % 10) as u8);
            }
        }
    }
}

/// The value only grows as more digits are read.
pub proof fn lemma_parse_dec_prefix_le(digits: Seq<u8>, j: int)
    requires
        0 <= j <= digits.len(),
    ensures
        spec_parse_dec(digits.subrange(0, j)) <= spec_parse_dec(digits),
    decreases digits.len() - j,
{
    if j < digits.len() {
        assert(digits.subrange(0, j + 1).drop_last() =~= digits.subrange(0, j));
        assert(spec_parse_dec(digits.subrange(0, j + 1)) == spec_parse_dec(digits.subrange(0, j))
            * 10 + (digits.subrange(0, j + 1).last() - 48) as nat);
        lemma_parse_dec_prefix_le(digits, j + 1);
        assert(digits.subrange(0, digits.len() as int) =~= digits);
    } else {
        assert(digits.subrange(0, j) =~= digits);
    }
}

/// End of the run of bytes before the first quote at or after `i`.
pub open spec fn quote_scan_end(s: Seq<u8>, i: int) -> int
    decreases s.len() - i when 0 <= i <= s.len()
{
    if i < s.len() && s[i] != 34 {
        quote_scan_end(s, i + 1)
    } else {
        i
    }
}

/// The quote scan ends exactly at the first quote.
pub proof fn lemma_quote_scan(s: Seq<u8>, i: int, e: int)
    requires
        0 <= i <= e <= s.len(),
        forall|j: int| i <= j < e ==> #[trigger] s[j] != 34,
        e == s.len() || s[e] == 34,
    ensures
        quote_scan_end(s, i) == e,
    decreases e - i,
{
    if i < e {
        lemma_quote_scan(s, i + 1, e);
    }
}

/// Read the value of the digits `s[from..to]`. `None` means the value
/// does not fit the id range.
fn parse_dec_range(s: &[u8], from: usize, to: usize) -> (r: Option<u64>)
    requires
        from <= to <= s@.len(),
        forall|j: int| from <= j < to ==> is_digit(#[trigger] s@[j]),
    ensures
        r matches Some(v) ==> v as nat == spec_parse_dec(s@.subrange(from as int, to as int)),
        r is None ==> spec_parse_dec(s@.subrange(from as int, to as int)) > u64::MAX,
{
    let mut acc: u64 = 0;
    let mut i: usize = from;
    proof {
        assert(s@.subrange(from as int, from as int) =~= Seq::<u8>::empty());
    }
    while i < to
        invariant
            from <= i <= to <= s@.len(),
            forall|j: int| from <= j < to ==> is_digit(#[trigger] s@[j]),
            acc as nat == spec_parse_dec(s@.subrange(from as int, i as int)),
        decreases to - i,
    {
        let d = s[i];
        proof {
            assert(is_digit(s@[i as int]));
            assert(s@.subrange(from as int, i + 1).drop_last() =~= s@.subrange(
                from as int,
                i as int,
            ));
            assert(s@.subrange(from as int, i + 1).last() == s@[i as int]);
        }
        if acc > (u64::MAX - ((d - 48) as u64)) / 10 {
            proof {
                let full = s@.subrange(from as int, to as int);
                let upto = s@.subrange(from as int, i + 1);
                assert(upto =~= full.subrange(0, (i + 1 - from) as int));
                lemma_parse_dec_prefix_le(full, (i + 1 - from) as int);
                assert(spec_parse_dec(upto) == acc as nat * 10 + (d - 48) as nat);
                assert(acc as nat * 10 + (d - 48) as nat > u64::MAX) by (nonlinear_arith)
                    requires
                        acc > (u64::MAX - ((d - 48) as u64)) / 10,
                        48 <= d <= 57,
                ;
            }
            return None;
        }
        proof {
            assert(acc as nat * 10 + (d - 48) as nat <= u64::MAX) by (nonlinear_arith)
                requires
                    acc <= (u64::MAX - ((d - 48) as u64)) / 10,
                    48 <= d <= 57,
            ;
        }
        acc = acc * 10 + ((d - 48) as u64);
        i = i + 1;
    }
    Some(acc)
}

/// Whether `s` carries exactly `pat` starting at `i`.
fn bytes_at(s: &[u8], i: usize, pat: &[u8]) -> (r: bool)
    requires
        i <= s@.len(),
    ensures
        r == (i + pat@.len() <= s@.len() && s@.subrange(i as int, i + pat@.len()) == pat@),
{
    let total = s.len();
    if pat.len() > total - i {
        return false;
    }
    let m = pat.len();
    let mut j: usize = 0;
    while j < m
        invariant
            total == s@.len(),
            i + m <= total,
            m == pat@.len(),
            j <= m,
            forall|k: int| 0 <= k < j ==> s@[i + k] == pat@[k],
        decreases m - j,
    {
        if s[i + j] != pat[j] {
            proof {
                let sub = s@.subrange(i as int, i + pat@.len());
                assert(sub[j as int] == s@[i + j]);
                assert(sub[j as int] != pat@[j as int]);
            }
            return false;
        }
        j = j + 1;
    }
    proof {
        assert(s@.subrange(i as int, i + pat@.len()) =~= pat@);
    }
    true
}


/// `,"result":` — a successful response's payload key.
pub open spec fn lit_result() -> Seq<u8> {
    seq![44u8, 34u8, 114u8, 101u8, 115u8, 117u8, 108u8, 116u8, 34u8, 58u8]
}

/// `,"error":` — a failed response's payload key.
pub open spec fn lit_error() -> Seq<u8> {
    seq![44u8, 34u8, 101u8, 114u8, 114u8, 111u8, 114u8, 34u8, 58u8]
}

/// `{"method":"` — how an event opens.
pub open spec fn lit_event_open() -> Seq<u8> {
    seq![123u8, 34u8, 109u8, 101u8, 116u8, 104u8, 111u8, 100u8, 34u8, 58u8, 34u8]
}

fn lit_call_open_vec() -> (r: Vec<u8>)
    ensures
        r@ == lit_call_open(),
{
    let mut v: Vec<u8> = Vec::new();
    push_call_open(&mut v);
    v
}

fn lit_method_vec() -> (r: Vec<u8>)
    ensures
        r@ == lit_method(),
{
    let mut v: Vec<u8> = Vec::new();
    push_lit_method(&mut v);
    v
}

fn lit_params_vec() -> (r: Vec<u8>)
    ensures
        r@ == lit_params(),
{
    let mut v: Vec<u8> = Vec::new();
    push_lit_params(&mut v);
    v
}

fn lit_result_vec() -> (r: Vec<u8>)
    ensures
        r@ == lit_result(),
{
    let mut v: Vec<u8> = Vec::new();
    v.push(44);
    v.push(34);
    v.push(114);
    v.push(101);
    v.push(115);
    v.push(117);
    v.push(108);
    v.push(116);
    v.push(34);
    v.push(58);
    proof {
        assert(v@ =~= lit_result());
    }
    v
}

fn lit_error_vec() -> (r: Vec<u8>)
    ensures
        r@ == lit_error(),
{
    let mut v: Vec<u8> = Vec::new();
    v.push(44);
    v.push(34);
    v.push(101);
    v.push(114);
    v.push(114);
    v.push(111);
    v.push(114);
    v.push(34);
    v.push(58);
    proof {
        assert(v@ =~= lit_error());
    }
    v
}

fn lit_event_open_vec() -> (r: Vec<u8>)
    ensures
        r@ == lit_event_open(),
{
    let mut v: Vec<u8> = Vec::new();
    v.push(123);
    v.push(34);
    v.push(109);
    v.push(101);
    v.push(116);
    v.push(104);
    v.push(111);
    v.push(100);
    v.push(34);
    v.push(58);
    v.push(34);
    proof {
        assert(v@ =~= lit_event_open());
    }
    v
}

/// Read a whole method-call frame: id, method name, params.
pub open spec fn spec_parse_call(s: Seq<u8>) -> Option<(nat, Seq<u8>, Seq<u8>)> {
    if !(s.len() >= 6 && s.subrange(0, 6) == lit_call_open()) {
        None
    } else {
        let d1 = digit_run_end(s, 6);
        if d1 == 6 {
            None
        } else {
            let id = spec_parse_dec(s.subrange(6, d1));
            if !(d1 + 11 <= s.len() && s.subrange(d1, d1 + 11) == lit_method()) {
                None
            } else {
                let m0 = d1 + 11;
                let m1 = quote_scan_end(s, m0);
                if !(m1 + 11 <= s.len() && s.subrange(m1, m1 + 11) == lit_params()) {
                    None
                } else if !(m1 + 11 < s.len() && s[s.len() - 1] == 125) {
                    None
                } else {
                    Some((id, s.subrange(m0, m1), s.subrange(m1 + 11, s.len() - 1)))
                }
            }
        }
    }
}

/// Read a response frame: call id, success, payload.
pub open spec fn spec_parse_response(s: Seq<u8>) -> Option<(nat, bool, Seq<u8>)> {
    if !(s.len() >= 6 && s.subrange(0, 6) == lit_call_open()) {
        None
    } else {
        let d1 = digit_run_end(s, 6);
        if d1 == 6 {
            None
        } else {
            let id = spec_parse_dec(s.subrange(6, d1));
            if d1 + 10 < s.len() && s.subrange(d1, d1 + 10) == lit_result() && s[s.len() - 1]
                == 125 {
                Some((id, true, s.subrange(d1 + 10, s.len() - 1)))
            } else if d1 + 9 < s.len() && s.subrange(d1, d1 + 9) == lit_error() && s[s.len() - 1]
                == 125 {
                Some((id, false, s.subrange(d1 + 9, s.len() - 1)))
            } else {
                None
            }
        }
    }
}

/// Read an event frame: method name, params.
pub open spec fn spec_parse_event(s: Seq<u8>) -> Option<(Seq<u8>, Seq<u8>)> {
    if !(s.len() >= 11 && s.subrange(0, 11) == lit_event_open()) {
        None
    } else {
        let m1 = quote_scan_end(s, 11);
        if !(m1 + 11 <= s.len() && s.subrange(m1, m1 + 11) == lit_params()) {
            None
        } else if !(m1 + 11 < s.len() && s[s.len() - 1] == 125) {
            None
        } else {
            Some((s.subrange(11, m1), s.subrange(m1 + 11, s.len() - 1)))
        }
    }
}

fn digit_run_to(s: &[u8], from: usize) -> (r: usize)
    requires
        from <= s@.len(),
    ensures
        r == digit_run_end(s@, from as int),
        from <= r <= s@.len(),
        forall|j: int| from <= j < r ==> is_digit(#[trigger] s@[j]),
        r == s@.len() || !is_digit(s@[r as int]),
{
    let total = s.len();
    let mut i: usize = from;
    while i < total && s[i] >= 48 && s[i] <= 57
        invariant
            total == s@.len(),
            from <= i <= total,
            forall|j: int| from <= j < i ==> is_digit(#[trigger] s@[j]),
        decreases total - i,
    {
        i = i + 1;
    }
    proof {
        lemma_digit_run(s@, from as int, i as int);
    }
    i
}

fn quote_scan_to(s: &[u8], from: usize) -> (r: usize)
    requires
        from <= s@.len(),
    ensures
        r == quote_scan_end(s@, from as int),
        from <= r <= s@.len(),
        forall|j: int| from <= j < r ==> #[trigger] s@[j] != 34,
        r == s@.len() || s@[r as int] == 34,
{
    let total = s.len();
    let mut i: usize = from;
    while i < total && s[i] != 34
        invariant
            total == s@.len(),
            from <= i <= total,
            forall|j: int| from <= j < i ==> #[trigger] s@[j] != 34,
        decreases total - i,
    {
        i = i + 1;
    }
    proof {
        lemma_quote_scan(s@, from as int, i as int);
    }
    i
}

/// Copy `s[from..to]` out.
fn copy_range(s: &[u8], from: usize, to: usize) -> (r: Vec<u8>)
    requires
        from <= to <= s@.len(),
    ensures
        r@ == s@.subrange(from as int, to as int),
{
    let mut out: Vec<u8> = Vec::new();
    let mut i: usize = from;
    while i < to
        invariant
            from <= i <= to <= s@.len(),
            out@ == s@.subrange(from as int, i as int),
        decreases to - i,
    {
        out.push(s[i]);
        proof {
            assert(out@ =~= s@.subrange(from as int, i + 1));
        }
        i = i + 1;
    }
    out
}

/// A parsed method-call frame.
pub struct CallParts {
    pub call_id: u64,
    pub method: Vec<u8>,
    pub params: Vec<u8>,
}

/// Read back a method-call frame. `None` comes back exactly when the
/// bytes are not a call frame, or its id does not fit the id range.
pub fn parse_call(s: &[u8]) -> (r: Option<CallParts>)
    ensures
        r matches Some(p) ==> spec_parse_call(s@) == Some(
            (p.call_id as nat, p.method@, p.params@),
        ),
        r is None ==> match spec_parse_call(s@) {
            Some(p) => p.0 > u64::MAX,
            None => true,
        },
{
    let total = s.len();
    let open = lit_call_open_vec();
    if !bytes_at(s, 0, open.as_slice()) {
        return None;
    }
    let d1 = digit_run_to(s, 6);
    if d1 == 6 {
        return None;
    }
    let method_lit = lit_method_vec();
    if !bytes_at(s, d1, method_lit.as_slice()) {
        return None;
    }
    let m0 = d1 + 11;
    let m1 = quote_scan_to(s, m0);
    let params_lit = lit_params_vec();
    if !bytes_at(s, m1, params_lit.as_slice()) {
        return None;
    }
    if !(m1 + 11 < total && s[total - 1] == 125) {
        return None;
    }
    proof {
        assert(forall|j: int| 6 <= j < d1 ==> is_digit(#[trigger] s@[j]));
    }
    let id = match parse_dec_range(s, 6, d1) {
        Some(v) => v,
        None => {
            return None;
        },
    };
    let method = copy_range(s, m0, m1);
    let params = copy_range(s, m1 + 11, total - 1);
    Some(CallParts { call_id: id, method, params })
}

/// One inbound frame after triage: a response to a call, a
/// browser-originated event, or neither.
pub enum WireMessage {
    Response { call_id: u64, ok: bool, body: Vec<u8> },
    Event { method: Vec<u8>, params: Vec<u8> },
    Malformed,
}

/// Classify one inbound text frame. A frame carrying an id is a
/// response; one carrying a method is an event; anything else — or an
/// id beyond the id range — is malformed.
pub fn triage_frame(s: &[u8]) -> (r: WireMessage)
    ensures
        r matches WireMessage::Response { call_id, ok, body } ==> spec_parse_response(s@) == Some(
            (call_id as nat, ok, body@),
        ),
        r matches WireMessage::Event { method, params } ==> spec_parse_response(s@) is None
            && spec_parse_event(s@) == Some((method@, params@)),
        r is Malformed ==> spec_parse_event(s@) is None && match spec_parse_response(s@) {
            Some(p) => p.0 > u64::MAX,
            None => true,
        },
{
    let total = s.len();
    let open = lit_call_open_vec();
    if bytes_at(s, 0, open.as_slice()) {
        let d1 = digit_run_to(s, 6);
        if d1 == 6 {
            proof {
                assert(spec_parse_event(s@) is None);
            }
            return WireMessage::Malformed;
        }
        let result_lit = lit_result_vec();
        let error_lit = lit_error_vec();
        let is_result = bytes_at(s, d1, result_lit.as_slice()) && d1 + 10 < total && s[total - 1]
            == 125;
        let is_error = bytes_at(s, d1, error_lit.as_slice()) && d1 + 9 < total && s[total - 1]
            == 125;
        proof {
            assert(forall|j: int| 6 <= j < d1 ==> is_digit(#[trigger] s@[j]));
            assert(spec_parse_event(s@) is None);
        }
        if is_result {
            match parse_dec_range(s, 6, d1) {
                Some(id) => {
                    let body = copy_range(s, d1 + 10, total - 1);
                    return WireMessage::Response { call_id: id, ok: true, body };
                },
                None => {
                    return WireMessage::Malformed;
                },
            }
        }
        if is_error {
            match parse_dec_range(s, 6, d1) {
                Some(id) => {
                    let body = copy_range(s, d1 + 9, total - 1);
                    return WireMessage::Response { call_id: id, ok: false, body };
                },
                None => {
                    return WireMessage::Malformed;
                },
            }
        }
        return WireMessage::Malformed;
    }
    let event_open = lit_event_open_vec();
    if bytes_at(s, 0, event_open.as_slice()) {
        let m1 = quote_scan_to(s, 11);
        let params_lit = lit_params_vec();
        if bytes_at(s, m1, params_lit.as_slice()) && m1 + 11 < total && s[total - 1] == 125 {
            let method = copy_range(s, 11, m1);
            let params = copy_range(s, m1 + 11, total - 1);
            proof {
                assert(spec_parse_response(s@) is None);
            }
            return WireMessage::Event { method, params };
        }
        proof {
            assert(spec_parse_response(s@) is None);
        }
        return WireMessage::Malformed;
    }
    WireMessage::Malformed
}

/// Serialising a method call and reading the frame back reproduces the
/// call id, the method name and the params, for every method name free
/// of quote bytes — every CDP method name is.
pub proof fn lemma_call_round_trip(id: nat, method: Seq<u8>, params: Seq<u8>)
    requires
        forall|i: int| 0 <= i < method.len() ==> #[trigger] method[i] != 34,
    ensures
        spec_parse_call(spec_render_call(id, method, params)) == Some((id, method, params)),
{
    let a = lit_call_open();
    let d = spec_dec_digits(id);
    let b = lit_method();
    let c = lit_params();
    let f = spec_render_call(id, method, params);
    lemma_dec_digits_round_trip(id);
    assert(f.len() == 6 + d.len() + 11 + method.len() + 11 + params.len() + 1);
    assert(f.subrange(0, 6) =~= a);
    let d1 = 6 + d.len() as int;
    assert forall|j: int| 6 <= j < d1 implies is_digit(#[trigger] f[j]) by {
        assert(f[j] == d[j - 6]);
    }
    assert(f[d1] == b[0]);
    assert(!is_digit(f[d1]));
    lemma_digit_run(f, 6, d1);
    assert(f.subrange(6, d1) =~= d);
    assert(f.subrange(d1, d1 + 11) =~= b);
    let m0 = d1 + 11;
    let m1 = m0 + method.len() as int;
    assert forall|j: int| m0 <= j < m1 implies #[trigger] f[j] != 34 by {
        assert(f[j] == method[j - m0]);
    }
    assert(f[m1] == c[0]);
    lemma_quote_scan(f, m0, m1);
    assert(f.subrange(m1, m1 + 11) =~= c);
    assert(m1 + 11 < f.len());
    assert(f[f.len() - 1] == 125);
    assert(f.subrange(m0, m1) =~= method);
    assert(f.subrange(m1 + 11, f.len() - 1) =~= params);
}


/// The value of one hex digit byte, lower or upper case.
pub open spec fn spec_hex_val(b: u8) -> Option<u8> {
    if 48 <= b <= 57 {
        Some((b - 48) as u8)
    } else if 97 <= b <= 102 {
        Some((b - 87) as u8)
    } else if 65 <= b <= 70 {
        Some((b - 55) as u8)
    } else {
        None
    }
}

/// Undo `spec_escape`, reading from `i` to the end. `None` means the
/// bytes are not a well-formed escaped string body.
pub open spec fn spec_unescape_from(s: Seq<u8>, i: int) -> Option<Seq<u8>>
    decreases s.len() - i when 0 <= i <= s.len()
{
    if i == s.len() {
        Some(Seq::empty())
    } else if s[i] == 92 {
        if i + 1 >= s.len() {
            None
        } else if s[i + 1] == 34 || s[i + 1] == 92 {
            match spec_unescape_from(s, i + 2) {
                Some(rest) => Some(seq![s[i + 1]] + rest),
                None => None,
            }
        } else if s[i + 1] == 117 {
            if i + 6 > s.len() {
                None
            } else if s[i + 2] == 48 && s[i + 3] == 48 {
                match (spec_hex_val(s[i + 4]), spec_hex_val(s[i + 5])) {
                    (Some(h), Some(l)) => match spec_unescape_from(s, i + 6) {
                        Some(rest) => Some(seq![(h * 16 + l) as u8] + rest),
                        None => None,
                    },
                    _ => None,
                }
            } else {
                None
            }
        } else {
            None
        }
    } else {
        match spec_unescape_from(s, i + 1) {
            Some(rest) => Some(seq![s[i]] + rest),
            None => None,
        }
    }
}

/// Undo `spec_escape` on a whole string body.
pub open spec fn spec_unescape(s: Seq<u8>) -> Option<Seq<u8>> {
    spec_unescape_from(s, 0)
}

/// Unescaping only looks forward: a prefix before the index does not
/// matter.
pub proof fn lemma_unescape_suffix(p: Seq<u8>, t: Seq<u8>)
    ensures
        spec_unescape_from(p + t, p.len() as int) == spec_unescape_from(t, 0),
    decreases t.len(),
{
    let s = p + t;
    let i = p.len() as int;
    assert(s.len() - i == t.len());
    if t.len() == 0 {
        assert(i == s.len());
    } else {
        assert(s[i] == t[0]);
        if t[0] == 92 {
            if t.len() < 2 {
                assert(i + 1 >= s.len());
            } else {
                assert(s[i + 1] == t[1]);
                if t[1] == 34 || t[1] == 92 {
                    let p2 = p + t.subrange(0, 2);
                    let t2 = t.subrange(2, t.len() as int);
                    assert(p2 + t2 =~= s);
                    assert(p2.len() == i + 2);
                    lemma_unescape_suffix(p2, t2);
                    assert(spec_unescape_from(t, 2) == spec_unescape_from(t2, 0)) by {
                        let q2 = t.subrange(0, 2);
                        assert(q2 + t2 =~= t);
                        lemma_unescape_suffix(q2, t2);
                    }
                } else if t[1] == 117 {
                    if t.len() < 6 {
                        assert(i + 6 > s.len());
                    } else {
                        assert(s[i + 2] == t[2]);
                        assert(s[i + 3] == t[3]);
                        assert(s[i + 4] == t[4]);
                        assert(s[i + 5] == t[5]);
                        let p2 = p + t.subrange(0, 6);
                        let t2 = t.subrange(6, t.len() as int);
                        assert(p2 + t2 =~= s);
                        assert(p2.len() == i + 6);
                        lemma_unescape_suffix(p2, t2);
                        assert(spec_unescape_from(t, 6) == spec_unescape_from(t2, 0)) by {
                            let q2 = t.subrange(0, 6);
                            assert(q2 + t2 =~= t);
                            lemma_unescape_suffix(q2, t2);
                        }
                    }
                }
            }
        } else {
            let p2 = p + t.subrange(0, 1);
            let t2 = t.subrange(1, t.len() as int);
            assert(p2 + t2 =~= s);
            assert(p2.len() == i + 1);
            lemma_unescape_suffix(p2, t2);
            assert(spec_unescape_from(t, 1) == spec_unescape_from(t2, 0)) by {
                let q2 = t.subrange(0, 1);
                assert(q2 + t2 =~= t);
                lemma_unescape_suffix(q2, t2);
            }
        }
    }
}

/// Escaping a string and unescaping the result gives the string back.
pub proof fn lemma_escape_round_trip(s: Seq<u8>)
    ensures
        spec_unescape(spec_escape(s)) == Some(s),
    decreases s.len(),
{
    if s.len() == 0 {
        assert(spec_escape(s).len() == 0);
    } else {
        let b = s[0];
        let e0 = spec_escape_byte(b);
        let rest = s.drop_first();
        let erest = spec_escape(rest);
        let full = e0 + erest;
        assert(spec_escape(s) == full);
        lemma_escape_round_trip(rest);
        lemma_unescape_suffix(e0, erest);
        assert(spec_unescape_from(full, e0.len() as int) == Some(rest));
        if b == 34 {
            assert(full[0] == 92 && full[1] == 34);
            assert(spec_unescape(full) == Some(seq![b] + rest));
        } else if b == 92 {
            assert(full[0] == 92 && full[1] == 92);
            assert(spec_unescape(full) == Some(seq![b] + rest));
        } else if b < 32 {
            assert(full[0] == 92 && full[1] == 117 && full[2] == 48 && full[3] == 48);
            assert(full[4] == spec_hex_digit(b / 16) && full[5] == spec_hex_digit(b % 16));
            assert(spec_hex_val(spec_hex_digit(b / 16)) == Some((b / 16) as u8));
            assert(spec_hex_val(spec_hex_digit(b % 16)) == Some((b % 16) as u8));
            assert((b / 16) * 16 + b % 16 == b) by {
                vstd::arithmetic::div_mod::lemma_fundamental_div_mod(b as int, 16);
            }
            assert(spec_unescape(full) == Some(seq![b] + rest));
        } else {
            assert(full[0] == b && b != 92);
            assert(spec_unescape(full) == Some(seq![b] + rest));
        }
        assert(seq![b] + rest =~= s);
    }
}

/// Undo `spec_escape` on `s[from..to]`.
pub fn unescape_range(s: &[u8], from: usize, to: usize) -> (r: Option<Vec<u8>>)
    requires
        from <= to <= s@.len(),
    ensures
        match r {
            Some(v) => spec_unescape(s@.subrange(from as int, to as int)) == Some(v@),
            None => spec_unescape(s@.subrange(from as int, to as int)) is None,
        },
{
    let piece_len = to - from;
    let mut out: Vec<u8> = Vec::new();
    let mut i: usize = 0;
    let ghost piece = s@.subrange(from as int, to as int);
    proof {
        assert(piece.len() == piece_len);
    }
    while i < piece_len
        invariant
            from <= to <= s@.len(),
            piece == s@.subrange(from as int, to as int),
            piece_len == piece.len(),
            i <= piece_len,
            forall|j: int| 0 <= j < piece.len() ==> piece[j] == s@[from + j],
            match spec_unescape_from(piece, i as int) {
                Some(t) => spec_unescape(piece) == Some(out@ + t),
                None => spec_unescape(piece) is None,
            },
        decreases piece_len - i,
    {
        let b = s[from + i];
        proof {
            assert(piece[i as int] == b);
        }
        if b == 92 {
            if piece_len - i < 2 {
                return None;
            }
            let e = s[from + i + 1];
            proof {
                assert(piece[i + 1] == e);
            }
            if e == 34 || e == 92 {
                out.push(e);
                proof {
                    let t_old = spec_unescape_from(piece, i as int);
                    assert(t_old == match spec_unescape_from(piece, i + 2) {
                        Some(rest) => Some(seq![piece[i + 1]] + rest),
                        None => None,
                    });
                    if spec_unescape_from(piece, i + 2) is Some {
                        let rest = spec_unescape_from(piece, i + 2)->Some_0;
                        assert(out@ + rest =~= out@.drop_last() + (seq![e] + rest));
                    }
                }
                i = i + 2;
            } else if e == 117 {
                if piece_len - i < 6 {
                    return None;
                }
                let h2 = s[from + i + 2];
                let h3 = s[from + i + 3];
                let h4 = s[from + i + 4];
                let h5 = s[from + i + 5];
                proof {
                    assert(piece[i + 2] == h2);
                    assert(piece[i + 3] == h3);
                    assert(piece[i + 4] == h4);
                    assert(piece[i + 5] == h5);
                }
                if !(h2 == 48 && h3 == 48) {
                    return None;
                }
                let hv = hex_val(h4);
                let lv = hex_val(h5);
                match (hv, lv) {
                    (Some(h), Some(l)) => {
                        out.push(h * 16 + l);
                        proof {
                            if spec_unescape_from(piece, i + 6) is Some {
                                let rest = spec_unescape_from(piece, i + 6)->Some_0;
                                assert(out@ + rest =~= out@.drop_last() + (seq![(h * 16 + l) as u8]
                                    + rest));
                            }
                        }
                        i = i + 6;
                    },
                    _ => {
                        return None;
                    },
                }
            } else {
                return None;
            }
        } else {
            out.push(b);
            proof {
                if spec_unescape_from(piece, i + 1) is Some {
                    let rest = spec_unescape_from(piece, i + 1)->Some_0;
                    assert(out@ + rest =~= out@.drop_last() + (seq![b] + rest));
                }
            }
            i = i + 1;
        }
    }
    proof {
        assert(spec_unescape_from(piece, piece.len() as int) == Some(Seq::<u8>::empty()));
        assert(out@ + Seq::<u8>::empty() =~= out@);
    }
    Some(out)
}

fn hex_val(b: u8) -> (r: Option<u8>)
    ensures
        r == spec_hex_val(b),
        r matches Some(v) ==> v < 16,
{
    if 48 <= b && b <= 57 {
        Some(b - 48)
    } else if 97 <= b && b <= 102 {
        Some(b - 87)
    } else if 65 <= b && b <= 70 {
        Some(b - 55)
    } else {
        None
    }
}

/// Position of the first unescaped quote at or after `i`. `None` means
/// the string body never ends.
pub open spec fn spec_escaped_string_end(s: Seq<u8>, i: int) -> Option<int>
    decreases s.len() - i when 0 <= i <= s.len()
{
    if i >= s.len() {
        None
    } else if s[i] == 34 {
        Some(i)
    } else if s[i] == 92 {
        if i + 2 <= s.len() {
            spec_escaped_string_end(s, i + 2)
        } else {
            None
        }
    } else {
        spec_escaped_string_end(s, i + 1)
    }
}

fn escaped_string_end(s: &[u8], from: usize) -> (r: Option<usize>)
    requires
        from <= s@.len(),
    ensures
        match r {
            Some(e) => spec_escaped_string_end(s@, from as int) == Some(e as int) && from <= e
                < s@.len() && s@[e as int] == 34,
            None => spec_escaped_string_end(s@, from as int) is None,
        },
{
    let total = s.len();
    let mut i: usize = from;
    while i < total
        invariant
            total == s@.len(),
            from <= i <= total,
            spec_escaped_string_end(s@, from as int) == spec_escaped_string_end(s@, i as int),
        decreases total - i,
    {
        let b = s[i];
        if b == 34 {
            return Some(i);
        }
        if b == 92 {
            if total - i >= 2 {
                i = i + 2;
            } else {
                return None;
            }
        } else {
            i = i + 1;
        }
    }
    None
}

/// First position at or after `i` where `pat` occurs in `s`.
pub open spec fn spec_find(s: Seq<u8>, pat: Seq<u8>, i: int) -> Option<int>
    decreases s.len() - i when 0 <= i
{
    if pat.len() == 0 {
        Some(i)
    } else if i + pat.len() > s.len() {
        None
    } else if s.subrange(i, i + pat.len() as int) == pat {
        Some(i)
    } else {
        spec_find(s, pat, i + 1)
    }
}

fn find_pattern(s: &[u8], pat: &[u8]) -> (r: Option<usize>)
    ensures
        match r {
            Some(p) => spec_find(s@, pat@, 0) == Some(p as int) && p + pat@.len() <= s@.len(),
            None => spec_find(s@, pat@, 0) is None,
        },
{
    let total = s.len();
    let m = pat.len();
    if m > total {
        return None;
    }
    if m == 0 {
        return Some(0);
    }
    let mut i: usize = 0;
    while i <= total - m
        invariant
            total == s@.len(),
            m == pat@.len(),
            1 <= m <= total,
            i <= total - m + 1,
            spec_find(s@, pat@, 0) == spec_find(s@, pat@, i as int),
        decreases total - i,
    {
        if bytes_at(s, i, pat) {
            return Some(i);
        }
        i = i + 1;
    }
    None
}

/// `"sessionId":"` — the session key inside the wrapper params.
pub open spec fn lit_session_key() -> Seq<u8> {
    seq![
        34u8,
        115u8,
        101u8,
        115u8,
        115u8,
        105u8,
        111u8,
        110u8,
        73u8,
        100u8,
        34u8,
        58u8,
        34u8,
    ]
}

/// `"message":"` — the carried-frame key inside the wrapper params.
pub open spec fn lit_message_key() -> Seq<u8> {
    seq![34u8, 109u8, 101u8, 115u8, 115u8, 97u8, 103u8, 101u8, 34u8, 58u8, 34u8]
}

fn lit_session_key_vec() -> (r: Vec<u8>)
    ensures
        r@ == lit_session_key(),
{
    let mut v: Vec<u8> = Vec::new();
    v.push(34);
    v.push(115);
    v.push(101);
    v.push(115);
    v.push(115);
    v.push(105);
    v.push(111);
    v.push(110);
    v.push(73);
    v.push(100);
    v.push(34);
    v.push(58);
    v.push(34);
    proof {
        assert(v@ =~= lit_session_key());
    }
    v
}

fn lit_message_key_vec() -> (r: Vec<u8>)
    ensures
        r@ == lit_message_key(),
{
    let mut v: Vec<u8> = Vec::new();
    v.push(34);
    v.push(109);
    v.push(101);
    v.push(115);
    v.push(115);
    v.push(97);
    v.push(103);
    v.push(101);
    v.push(34);
    v.push(58);
    v.push(34);
    proof {
        assert(v@ =~= lit_message_key());
    }
    v
}

/// What unwrapping the params of `Target.receivedMessageFromTarget`
/// yields: the session and the unescaped carried frame.
pub open spec fn spec_unwrap_received(params: Seq<u8>) -> Option<(Seq<u8>, Seq<u8>)> {
    match spec_find(params, lit_session_key(), 0) {
        None => None,
        Some(si) => {
            let s0 = si + 13;
            let s1 = quote_scan_end(params, s0);
            if s1 >= params.len() {
                None
            } else {
                match spec_find(params, lit_message_key(), 0) {
                    None => None,
                    Some(mi) => {
                        let b0 = mi + 11;
                        match spec_escaped_string_end(params, b0) {
                            None => None,
                            Some(b1) => match spec_unescape(params.subrange(b0, b1)) {
                                None => None,
                                Some(inner) => Some((params.subrange(s0, s1), inner)),
                            },
                        }
                    },
                }
            }
        },
    }
}

/// Unwrap one `Target.receivedMessageFromTarget` event: pull out the
/// session and the carried frame, unescape the frame and classify it
/// with the same triage as a directly-received frame. A wrapper whose
/// carried message is missing, never ends, does not unescape, or is
/// itself malformed surfaces a protocol-parse failure.
pub fn unwrap_received_message(params: &[u8]) -> (r: Result<
    (Vec<u8>, WireMessage),
    crate::errors::ChromePageError,
>)
    ensures
        r matches Ok((sid, msg)) ==> spec_unwrap_received(params@) matches Some((s2, inner)) && {
            &&& sid@ == s2
            &&& !(msg is Malformed)
            &&& (msg matches WireMessage::Response { call_id, ok, body } ==> spec_parse_response(
                inner,
            ) == Some((call_id as nat, ok, body@)))
            &&& (msg matches WireMessage::Event { method, params: prm } ==> spec_parse_event(inner)
                == Some((method@, prm@)))
        },
        r matches Err(e) ==> e is ProtocolParse && match spec_unwrap_received(params@) {
            None => true,
            Some((_, inner)) => spec_parse_event(inner) is None && match spec_parse_response(
                inner,
            ) {
                Some(p) => p.0 > u64::MAX,
                None => true,
            },
        },
{
    let total = params.len();
    let session_key = lit_session_key_vec();
    let si = match find_pattern(params, session_key.as_slice()) {
        Some(i) => i,
        None => {
            return Err(crate::errors::ChromePageError::ProtocolParse);
        },
    };
    let s0 = si + 13;
    let s1 = quote_scan_to(params, s0);
    if s1 >= total {
        return Err(crate::errors::ChromePageError::ProtocolParse);
    }
    let message_key = lit_message_key_vec();
    let mi = match find_pattern(params, message_key.as_slice()) {
        Some(i) => i,
        None => {
            return Err(crate::errors::ChromePageError::ProtocolParse);
        },
    };
    let b0 = mi + 11;
    let b1 = match escaped_string_end(params, b0) {
        Some(e) => e,
        None => {
            return Err(crate::errors::ChromePageError::ProtocolParse);
        },
    };
    let inner = match unescape_range(params, b0, b1) {
        Some(v) => v,
        None => {
            return Err(crate::errors::ChromePageError::ProtocolParse);
        },
    };
    let msg = triage_frame(inner.as_slice());
    match msg {
        WireMessage::Malformed => Err(crate::errors::ChromePageError::ProtocolParse),
        other => {
            let session = copy_range(params, s0, s1);
            Ok((session, other))
        },
    }
}

} // verus!
