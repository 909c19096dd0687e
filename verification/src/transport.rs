//! The retrying command transport.
//!
//! A command is one UDP request awaiting one reply. Sockets are the caller's
//! business, reached through the [`CommandPort`] capability trait: one call
//! of `exchange` opens a fresh socket, sends the message and waits a bounded
//! time for one datagram. The transport decides everything else — how the
//! reply is decoded, when an attempt has failed, how long to back off, when
//! to give up — and its contract pins those decisions over the per-attempt
//! outcomes, which it also returns as a ghost log.

use vstd::prelude::*;
use crate::errors::Error;
use crate::history::MessageHistory;
use crate::history::MessageType;
use crate::json::bytes_to_text;
use crate::json::json_check;
use crate::json::json_ok;
use crate::net::Ipv4;

verus! {

/// The well-known port bulbs answer commands on.
pub const COMMAND_PORT: u16 = 38899;

/// How long one attempt waits for a reply, in milliseconds.
pub const ATTEMPT_TIMEOUT_MS: u64 = 1000;

/// The backoff delay requested after the failed attempt with the given
/// index: 750 ms, then 1500 ms, then 3000 ms for every later attempt.
pub open spec fn spec_backoff_ms(i: int) -> u64 {
    if i <= 0 {
        750
    } else if i == 1 {
        1500
    } else {
        3000
    }
}

/// The backoff delay after the failed attempt with the given index.
pub fn backoff_delay_ms(attempt: usize) -> (r: u64)
    ensures
        r == spec_backoff_ms(attempt as int),
{
    if attempt == 0 {
        750
    } else if attempt == 1 {
        1500
    } else {
        3000
    }
}

/// The capabilities the transport needs from its runtime: one socket
/// exchange per attempt, a pause, and a monotonic clock. Implementations
/// perform real I/O; nothing is assumed of their behaviour.
pub trait CommandPort {
    /// Open a fresh socket targeted at `ip:port`, send `message`, and wait
    /// up to `timeout_ms` for one reply datagram. Every failure — bind,
    /// connect, send, receive or timeout — comes back as a socket error.
    fn exchange(&mut self, ip: Ipv4, port: u16, message: &str, timeout_ms: u64) -> Result<
        Vec<u8>,
        Error,
    >;

    /// Pause for the given backoff delay.
    fn pause_ms(&mut self, delay_ms: u64);

    /// Milliseconds on a monotonic clock.
    fn now_ms(&mut self) -> u64;
}

/// What the retrying transport guarantees, over the classified per-attempt
/// outcomes `attempts` (a decoded reply text, or the attempt's error) and
/// the backoff delays `delays` it requested: at most four attempts, every
/// attempt before the last failed, an early stop only on success, the final
/// attempt's outcome as the result, a decoded reply on every success, and
/// one scheduled delay after each failed attempt that left attempts over.
pub open spec fn spec_transport_post(
    attempts: Seq<Result<String, Error>>,
    delays: Seq<u64>,
    r: Result<String, Error>,
) -> bool {
    &&& 1 <= attempts.len() <= 4
    &&& forall|i: int| 0 <= i < attempts.len() - 1 ==> (#[trigger] attempts[i]) is Err
    &&& (attempts.last() is Err ==> attempts.len() == 4)
    &&& r == attempts.last()
    &&& forall|i: int|
        0 <= i < attempts.len() ==> ((#[trigger] attempts[i]) matches Ok(t) ==> json_ok(t@))
    &&& delays.len() == attempts.len() - 1
    &&& forall|i: int| 0 <= i < delays.len() ==> (#[trigger] delays[i]) == spec_backoff_ms(i)
}

/// Send one encoded command and await one decoded reply, retrying on any
/// failure — socket trouble, a reply that is not UTF-8, a reply that is not
/// JSON — with the fixed backoff ladder, up to four attempts in all. Each
/// attempt's error is recorded in the history; the final outcome, the
/// per-attempt log and the requested delays are returned.
pub fn send_with_retries<P: CommandPort>(
    port: &mut P,
    history: &mut MessageHistory,
    ip: Ipv4,
    message: &str,
) -> (r: (Result<String, Error>, Ghost<Seq<Result<String, Error>>>, Ghost<Seq<u64>>))
    requires
        old(history).wf(),
    ensures
        spec_transport_post(r.1@, r.2@, r.0),
        final (history).wf(),
        final (history).spec_entries() == old(history).spec_entries(),
        final (history).spec_max_entries() == old(history).spec_max_entries(),
        forall|t: MessageType| final (history).log_of(t) == old(history).log_of(t),
        r.1@ =~= seq![r.0] ==> r.0 is Err || final (history).spec_last_error() == old(
            history,
        ).spec_last_error(),
        (r.1@.len() > 1 || r.0 is Err) ==> final (history).spec_last_error() is Some,
{
    let ghost mut alog: Seq<Result<String, Error>> = Seq::empty();
    let ghost mut dlog: Seq<u64> = Seq::empty();
    let mut last_err: Option<Error> = None;
    let mut attempt: usize = 0;
    while attempt < 4
        invariant
            old(history).wf(),
            history.wf(),
            attempt <= 4,
            alog.len() == attempt,
            dlog.len() == if attempt < 4 {
                attempt as int
            } else {
                3
            },
            forall|i: int| 0 <= i < alog.len() ==> (#[trigger] alog[i]) is Err,
            forall|i: int| 0 <= i < dlog.len() ==> (#[trigger] dlog[i]) == spec_backoff_ms(i),
            attempt > 0 ==> (last_err matches Some(e) && alog.last() == Err::<String, Error>(e)),
            history.spec_entries() == old(history).spec_entries(),
            history.spec_max_entries() == old(history).spec_max_entries(),
            forall|t: MessageType| history.log_of(t) == old(history).log_of(t),
            attempt == 0 ==> history.spec_last_error() == old(history).spec_last_error(),
            attempt > 0 ==> history.spec_last_error() is Some,
        decreases 4 - attempt,
    {
        let outcome = port.exchange(ip, COMMAND_PORT, message, ATTEMPT_TIMEOUT_MS);
        let classified: Result<String, Error> = match outcome {
            Ok(bytes) => match bytes_to_text(bytes) {
                Ok(text) => match json_check(text.as_str()) {
                    Ok(_) => Ok(text),
                    Err(detail) => Err(Error::JsonLoad { detail }),
                },
                Err(detail) => Err(Error::Utf8Decode { detail }),
            },
            Err(e) => Err(e),
        };
        match classified {
            Ok(text) => {
                proof {
                    alog = alog.push(Ok(text));
                }
                return (Ok(text), Ghost(alog), Ghost(dlog));
            },
            Err(e) => {
                let rendered = e.message();
                history.record_error(rendered.as_str());
                proof {
                    alog = alog.push(Err(e));
                }
                last_err = Some(e);
                if attempt < 3 {
                    let delay = backoff_delay_ms(attempt);
                    port.pause_ms(delay);
                    proof {
                        dlog = dlog.push(delay);
                    }
                }
                attempt = attempt + 1;
            },
        }
    }
    match last_err {
        Some(e) => (Err(e), Ghost(alog), Ghost(dlog)),
        None => {
            proof {
                assert(false);
            }
            (Err(Error::NoAttribute), Ghost(alog), Ghost(dlog))
        },
    }
}

/// The sum of a delay sequence, in milliseconds.
pub open spec fn spec_sum(s: Seq<u64>) -> int
    decreases s.len(),
{
    if s.len() == 0 {
        0
    } else {
        spec_sum(s.drop_last()) + s.last()
    }
}

/// The running sums of the backoff ladder's prefixes.
pub proof fn lemma_sum_of_backoff_ladder()
    ensures
        spec_sum(seq![750u64]) == 750,
        spec_sum(seq![750u64, 1500u64]) == 2250,
        spec_sum(seq![750u64, 1500u64, 3000u64]) == 5250,
{
    let d1 = seq![750u64];
    let d2 = seq![750u64, 1500u64];
    let d3 = seq![750u64, 1500u64, 3000u64];
    assert(d1.drop_last() =~= Seq::<u64>::empty());
    assert(spec_sum(d1) == spec_sum(d1.drop_last()) + 750);
    assert(d2.drop_last() =~= d1);
    assert(spec_sum(d2) == spec_sum(d1) + 1500);
    assert(d3.drop_last() =~= d2);
    assert(spec_sum(d3) == spec_sum(d2) + 3000);
}

/// An endpoint that never responds fails every attempt: exactly four
/// attempts occur, the requested backoff delays are 750, 1500 and 3000
/// milliseconds — 5250 ms of backoff in all, besides the four bounded
/// attempt timeouts — and the transport's result is the final attempt's
/// error.
pub proof fn lemma_transport_exhausts_attempts(
    attempts: Seq<Result<String, Error>>,
    delays: Seq<u64>,
    r: Result<String, Error>,
)
    requires
        spec_transport_post(attempts, delays, r),
        forall|i: int| 0 <= i < attempts.len() ==> (#[trigger] attempts[i]) is Err,
    ensures
        attempts.len() == 4,
        r == attempts[3],
        r is Err,
        delays =~= seq![750u64, 1500u64, 3000u64],
        spec_sum(delays) == 5250,
{
    assert(attempts.last() is Err);
    assert(delays.len() == 3);
    assert(delays[0] == spec_backoff_ms(0) && delays[1] == spec_backoff_ms(1) && delays[2]
        == spec_backoff_ms(2));
    assert(delays =~= seq![750u64, 1500u64, 3000u64]);
    lemma_sum_of_backoff_ladder();
}

/// An endpoint that fails the first two attempts and answers the third has
/// the transport stop there: the result is the third attempt's decoded
/// reply, and exactly the first two backoff delays — 750 and 1500 ms,
/// 2250 ms in all — were requested.
pub proof fn lemma_transport_third_attempt_reply(
    attempts: Seq<Result<String, Error>>,
    delays: Seq<u64>,
    r: Result<String, Error>,
    t: String,
)
    requires
        spec_transport_post(attempts, delays, r),
        attempts.len() >= 3,
        attempts[0] is Err,
        attempts[1] is Err,
        attempts[2] == Ok::<String, Error>(t),
    ensures
        attempts.len() == 3,
        r == Ok::<String, Error>(t),
        delays =~= seq![750u64, 1500u64],
        spec_sum(delays) == 2250,
{
    assert(attempts.len() == 3) by {
        if attempts.len() > 3 {
            assert(attempts[2] is Err);
        }
    }
    assert(delays.len() == 2);
    assert(delays[0] == spec_backoff_ms(0) && delays[1] == spec_backoff_ms(1));
    assert(delays =~= seq![750u64, 1500u64]);
    lemma_sum_of_backoff_ladder();
}

} // verus!
