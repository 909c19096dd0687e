//! Wire-format encoders for the JSON-over-UDP protocol.
//!
//! Commands travel as JSON text datagrams. The protocol's own messages have
//! a small fixed shape — an object with a `method` name and an optional
//! `params` object of numeric or boolean fields — so the library renders
//! them directly, with the exact output text stated in the contracts.
//! Object keys appear in sorted order, as the devices see them on the wire.

use vstd::prelude::*;
use crate::net::Ipv4;
use crate::net::spec_ipv4_text;
use crate::payload::Payload;
use crate::text::push_dec;
use crate::text::push_hex_fixed;
use crate::text::spec_dec;
use crate::text::spec_hex_digit;
use crate::text::spec_hex_fixed;

verus! {

/// `s` wrapped in double quotes.
pub open spec fn spec_quoted(s: Seq<char>) -> Seq<char> {
    seq!['"'] + s + seq!['"']
}

/// The text of one numeric object member: `"name":value`.
pub open spec fn spec_num_field(name: Seq<char>, v: nat) -> Seq<char> {
    spec_quoted(name) + seq![':'] + spec_dec(v)
}

/// The fragment list an optional numeric field contributes: one member when
/// present, nothing when absent.
pub open spec fn spec_opt_field(name: Seq<char>, v: Option<u16>) -> Seq<Seq<char>> {
    match v {
        Some(x) => seq![spec_num_field(name, x as nat)],
        None => Seq::empty(),
    }
}

/// Object members joined with commas.
pub open spec fn spec_join_comma(frags: Seq<Seq<char>>) -> Seq<char>
    decreases frags.len(),
{
    if frags.len() == 0 {
        Seq::empty()
    } else if frags.len() == 1 {
        frags[0]
    } else {
        frags[0] + seq![','] + spec_join_comma(frags.skip(1))
    }
}

proof fn lemma_join_push(frags: Seq<Seq<char>>, x: Seq<char>)
    ensures
        spec_join_comma(frags.push(x)) == if frags.len() == 0 {
            x
        } else {
            spec_join_comma(frags) + seq![','] + x
        },
    decreases frags.len(),
{
    if frags.len() == 0 {
        assert(frags.push(x) =~= seq![x]);
        assert(spec_join_comma(seq![x]) == x);
    } else {
        lemma_join_push(frags.skip(1), x);
        assert(frags.push(x).skip(1) =~= frags.skip(1).push(x));
        assert(frags.push(x)[0] == frags[0]);
        if frags.len() == 1 {
            assert(frags.skip(1).len() == 0);
            assert(spec_join_comma(frags.push(x)) == frags[0] + seq![','] + x);
            assert(spec_join_comma(frags) == frags[0]);
        } else {
            assert(spec_join_comma(frags.push(x)) == frags[0] + seq![','] + (spec_join_comma(
                frags.skip(1),
            ) + seq![','] + x));
            assert(frags[0] + seq![','] + (spec_join_comma(frags.skip(1)) + seq![','] + x) =~= (
            frags[0] + seq![','] + spec_join_comma(frags.skip(1))) + seq![','] + x);
        }
    }
}

/// Render one numeric object member.
fn num_field(name: &str, v: u64) -> (r: String)
    ensures
        r@ == spec_num_field(name@, v as nat),
{
    let mut out = String::new();
    out.push('"');
    out.append(name);
    out.push('"');
    out.push(':');
    push_dec(&mut out, v);
    proof {
        assert(out@ =~= spec_num_field(name@, v as nat));
    }
    out
}

/// Join rendered members with commas.
fn join_comma(frags: &Vec<String>) -> (r: String)
    ensures
        r@ == spec_join_comma(frags.deep_view()),
{
    let mut out = String::new();
    let mut i: usize = 0;
    proof {
        assert(frags.deep_view().take(0) =~= Seq::<Seq<char>>::empty());
    }
    while i < frags.len()
        invariant
            i <= frags.deep_view().len(),
            frags.deep_view().len() == frags@.len(),
            out@ == spec_join_comma(frags.deep_view().take(i as int)),
        decreases frags@.len() - i,
    {
        if i > 0 {
            out.push(',');
        }
        out.append(frags[i].as_str());
        proof {
            let dv = frags.deep_view();
            assert(dv.take(i + 1 as int) =~= dv.take(i as int).push(dv[i as int]));
            lemma_join_push(dv.take(i as int), dv[i as int]);
            if i > 0 {
                assert(out@ =~= spec_join_comma(dv.take(i as int)) + seq![','] + dv[i as int]);
            }
        }
        i = i + 1;
    }
    proof {
        assert(frags.deep_view().take(frags.deep_view().len() as int) =~= frags.deep_view());
    }
    out
}

/// The member list of a payload, in the fixed field order of the protocol,
/// skipping absent fields.
pub open spec fn spec_payload_fields(p: Payload) -> Seq<Seq<char>> {
    spec_opt_field("sceneId"@, p.scene) + spec_opt_field("dimming"@, opt_widen(p.dimming))
        + spec_opt_field("speed"@, opt_widen(p.speed)) + spec_opt_field("temp"@, p.temp)
        + spec_opt_field("ratio"@, opt_widen(p.ratio)) + spec_opt_field("r"@, opt_widen(p.red))
        + spec_opt_field("g"@, opt_widen(p.green)) + spec_opt_field("b"@, opt_widen(p.blue))
        + spec_opt_field("c"@, opt_widen(p.cool)) + spec_opt_field("w"@, opt_widen(p.warm))
        + spec_opt_field("fanState"@, opt_widen(p.fan_state)) + spec_opt_field(
        "fanMode"@,
        opt_widen(p.fan_mode),
    ) + spec_opt_field("fanSpeed"@, opt_widen(p.fan_speed)) + spec_opt_field(
        "fanRevrs"@,
        opt_widen(p.fan_reverse),
    )
}

/// An optional byte widened to an optional sixteen-bit value.
pub open spec fn opt_widen(v: Option<u8>) -> Option<u16> {
    match v {
        Some(x) => Some(x as u16),
        None => None,
    }
}

/// The JSON text of a payload: an object of its present fields.
pub open spec fn spec_payload_text(p: Payload) -> Seq<char> {
    seq!['{'] + spec_join_comma(spec_payload_fields(p)) + seq!['}']
}

/// Append the member an optional field contributes, if any.
fn push_opt_field(frags: &mut Vec<String>, name: &str, v: Option<u16>)
    ensures
        final (frags).deep_view() == old(frags).deep_view() + spec_opt_field(name@, v),
{
    let ghost before = frags.deep_view();
    if let Some(x) = v {
        frags.push(num_field(name, x as u64));
        proof {
            assert(frags.deep_view() =~= before + spec_opt_field(name@, v));
        }
    } else {
        proof {
            assert(frags.deep_view() =~= before + spec_opt_field(name@, v));
        }
    }
}

/// An optional byte widened to an optional sixteen-bit value.
fn widen(v: Option<u8>) -> (r: Option<u16>)
    ensures
        r == opt_widen(v),
{
    match v {
        Some(x) => Some(x as u16),
        None => None,
    }
}

/// Render a payload as the JSON object the protocol expects.
pub fn encode_payload(p: &Payload) -> (r: String)
    ensures
        r@ == spec_payload_text(*p),
{
    let mut frags: Vec<String> = Vec::new();
    proof {
        assert(frags.deep_view() =~= Seq::<Seq<char>>::empty());
    }
    push_opt_field(&mut frags, "sceneId", p.scene);
    push_opt_field(&mut frags, "dimming", widen(p.dimming));
    push_opt_field(&mut frags, "speed", widen(p.speed));
    push_opt_field(&mut frags, "temp", p.temp);
    push_opt_field(&mut frags, "ratio", widen(p.ratio));
    push_opt_field(&mut frags, "r", widen(p.red));
    push_opt_field(&mut frags, "g", widen(p.green));
    push_opt_field(&mut frags, "b", widen(p.blue));
    push_opt_field(&mut frags, "c", widen(p.cool));
    push_opt_field(&mut frags, "w", widen(p.warm));
    push_opt_field(&mut frags, "fanState", widen(p.fan_state));
    push_opt_field(&mut frags, "fanMode", widen(p.fan_mode));
    push_opt_field(&mut frags, "fanSpeed", widen(p.fan_speed));
    push_opt_field(&mut frags, "fanRevrs", widen(p.fan_reverse));
    proof {
        assert(frags.deep_view() =~= spec_payload_fields(*p));
    }
    let body = join_comma(&frags);
    let mut out = String::new();
    out.push('{');
    out.append(body.as_str());
    out.push('}');
    proof {
        assert(out@ =~= spec_payload_text(*p));
    }
    out
}

/// The JSON text of a command envelope: the method name, and the params
/// object when there is one.
pub open spec fn spec_command_text(method: Seq<char>, params: Option<Seq<char>>) -> Seq<char> {
    match params {
        None => "{\"method\":\""@ + method + "\"}"@,
        Some(p) => "{\"method\":\""@ + method + "\",\"params\":"@ + p + seq!['}'],
    }
}

/// Render a command envelope: `method` names the operation, `params` is an
/// already rendered JSON value.
pub fn encode_command(method: &str, params: Option<&str>) -> (r: String)
    ensures
        params matches Some(p) ==> r@ == spec_command_text(method@, Some(p@)),
        params is None ==> r@ == spec_command_text(method@, None),
{
    let mut out = String::new();
    out.append("{\"method\":\"");
    out.append(method);
    match params {
        None => {
            out.append("\"}");
            proof {
                assert(out@ =~= spec_command_text(method@, None));
            }
        },
        Some(p) => {
            out.append("\",\"params\":");
            out.append(p);
            out.push('}');
            proof {
                assert(out@ =~= spec_command_text(method@, Some(p@)));
            }
        },
    }
    out
}

/// The JSON text of the push-registration message a manager sends to each
/// bulb: the caller's IP, a session identifier in place of a hardware
/// address, and the register intent flag set.
pub open spec fn spec_registration_text(ip: Ipv4, mac: Seq<char>) -> Seq<char> {
    "{\"method\":\"registration\",\"params\":{\"phoneIp\":\""@ + spec_ipv4_text(ip)
        + "\",\"phoneMac\":\""@ + mac + "\",\"register\":true}}"@
}

/// Render the push-registration message.
pub fn encode_registration(ip: &Ipv4, mac: &str) -> (r: String)
    ensures
        r@ == spec_registration_text(*ip, mac@),
{
    let mut out = String::new();
    out.append("{\"method\":\"registration\",\"params\":{\"phoneIp\":\"");
    let ip_text = ip.to_text();
    out.append(ip_text.as_str());
    out.append("\",\"phoneMac\":\"");
    out.append(mac);
    out.append("\",\"register\":true}}");
    proof {
        assert(out@ =~= spec_registration_text(*ip, mac@));
    }
    out
}

/// The registration probe that discovery broadcasts: a fixed message with a
/// placeholder sender and the register intent flag cleared.
pub open spec fn spec_probe_text() -> Seq<char> {
    "{\"method\":\"registration\",\"params\":{\"id\":\"1\",\"phoneIp\":\"1.2.3.4\",\"phoneMac\":\"AAAAAAAAAAAA\",\"register\":false}}"@
}

/// Render the discovery probe.
pub fn encode_probe() -> (r: String)
    ensures
        r@ == spec_probe_text(),
{
    String::from_str(
        "{\"method\":\"registration\",\"params\":{\"id\":\"1\",\"phoneIp\":\"1.2.3.4\",\"phoneMac\":\"AAAAAAAAAAAA\",\"register\":false}}",
    )
}

/// The params object of a power-state command.
pub open spec fn spec_state_params(on: bool) -> Seq<char> {
    if on {
        "{\"state\":true}"@
    } else {
        "{\"state\":false}"@
    }
}

/// Render the params object of a power-state command.
pub fn encode_state_params(on: bool) -> (r: String)
    ensures
        r@ == spec_state_params(on),
{
    if on {
        String::from_str("{\"state\":true}")
    } else {
        String::from_str("{\"state\":false}")
    }
}

/// The twelve-hex-digit identifier the low 48 bits of a seed yield.
pub open spec fn spec_mac_of_seed(seed: u128) -> Seq<char> {
    spec_hex_fixed((seed % 0x1000000000000) as nat, 12)
}

/// Render the low 48 bits of a seed as a twelve-digit uppercase hexadecimal
/// identifier, as the push manager uses for its per-session sender address.
pub fn mac_from_seed(seed: u128) -> (r: String)
    ensures
        r@ == spec_mac_of_seed(seed),
        r@.len() == 12,
        forall|i: int| 0 <= i < 12 ==> spec_is_hex_char(#[trigger] r@[i]),
{
    let low = (seed % 0x1000000000000) as u64;
    let mut out = String::new();
    push_hex_fixed(&mut out, low, 12);
    proof {
        assert(Seq::<char>::empty() + spec_hex_fixed(low as nat, 12) =~= spec_hex_fixed(
            low as nat,
            12,
        ));
        lemma_hex_fixed_shape(low as nat, 12);
    }
    out
}

/// Whether a character is an uppercase hexadecimal digit.
pub open spec fn spec_is_hex_char(c: char) -> bool {
    ('0' <= c && c <= '9') || ('A' <= c && c <= 'F')
}

proof fn lemma_hex_fixed_shape(n: nat, w: nat)
    ensures
        spec_hex_fixed(n, w).len() == w,
        forall|i: int| 0 <= i < w ==> spec_is_hex_char(#[trigger] spec_hex_fixed(n, w)[i]),
    decreases w,
{
    if w > 0 {
        lemma_hex_fixed_shape(n / 16, (w - 1) as nat);
        assert(spec_is_hex_char(spec_hex_digit(n % 16)));
    }
}

} // verus!
