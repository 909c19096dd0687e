//! Device discovery via UDP broadcast.
//!
//! Discovery broadcasts one registration probe and collects the replies that
//! arrive before an overall timeout. The socket work — broadcasting, waiting
//! out the timeout — is the caller's; the collector here holds the verified
//! heart of the scan: every reply that decodes to a JSON object carrying a
//! `result.mac` identifier from an IPv4 sender joins the result set, keyed
//! by that identifier, with a later reply from the same identifier
//! overwriting the earlier one's address.

use vstd::prelude::*;
use crate::json::bytes_to_text;
use crate::json::json_result_mac;
use crate::json::json_result_mac_of;
use crate::json::utf8_text;
use crate::light::Light;
use crate::net::Ipv4;
use crate::table::StrMap;
use crate::table::lemma_strmap_card;
use crate::table::spec_pairs_map;

verus! {

/// A discovered bulb on the network.
#[derive(Debug, Clone)]
pub struct DiscoveredBulb {
    /// IP address of the discovered bulb
    pub ip: Ipv4,
    /// Hardware identifier of the discovered bulb
    pub mac: String,
}

impl DiscoveredBulb {
    /// Convert this discovered bulb into a [`Light`] instance.
    pub fn into_light(self, name: Option<&str>) -> (r: Light)
        ensures
            r.ip == self.ip,
            match name {
                Some(n) => r.name matches Some(rn) && rn@ == n@,
                None => r.name is None,
            },
            r.status is None,
            r.wf(),
    {
        Light::new(self.ip, name)
    }
}

/// The identifier a discovery reply carries: the `result.mac` string of its
/// JSON text, if the datagram is UTF-8 and parses to an object with one.
pub open spec fn spec_datagram_mac(data: Seq<u8>) -> Option<Seq<char>> {
    match utf8_text(data) {
        Some(t) => json_result_mac_of(t),
        None => None,
    }
}

/// The identifier-to-address map a sequence of received datagrams yields:
/// replies without an identifier or without an IPv4 sender are skipped, and
/// for each identifier the address of its last reply wins.
pub open spec fn spec_collect(log: Seq<(Seq<u8>, Option<Ipv4>)>) -> Map<Seq<char>, Ipv4>
    decreases log.len(),
{
    if log.len() == 0 {
        Map::empty()
    } else {
        let rest = spec_collect(log.drop_last());
        match (spec_datagram_mac(log.last().0), log.last().1) {
            (Some(mac), Some(ip)) => rest.insert(mac, ip),
            _ => rest,
        }
    }
}

/// The identifier-to-address map of a list of discovered bulbs.
pub open spec fn spec_bulbs_map(bulbs: Seq<DiscoveredBulb>) -> Map<Seq<char>, Ipv4>
    decreases bulbs.len(),
{
    if bulbs.len() == 0 {
        Map::empty()
    } else {
        spec_bulbs_map(bulbs.drop_last()).insert(bulbs.last().mac@, bulbs.last().ip)
    }
}

/// Collects discovery replies, deduplicated by device identifier.
pub struct DiscoveryCollector {
    /// The replies collected so far, keyed by identifier.
    pub found: StrMap<Ipv4>,
    /// The datagrams fed in so far.
    pub log: Ghost<Seq<(Seq<u8>, Option<Ipv4>)>>,
}

impl DiscoveryCollector {
    /// The collector follows its datagram log exactly.
    pub open spec fn wf(self) -> bool {
        &&& self.found.wf()
        &&& self.found@ == spec_collect(self.log@)
    }

    /// An empty collection.
    pub fn new() -> (r: Self)
        ensures
            r.wf(),
            r.log@ == Seq::<(Seq<u8>, Option<Ipv4>)>::empty(),
            r.found@ == Map::<Seq<char>, Ipv4>::empty(),
    {
        DiscoveryCollector { found: StrMap::new(), log: Ghost(Seq::empty()) }
    }

    /// Take in one received datagram: if it decodes to a reply carrying an
    /// identifier and arrived from an IPv4 sender, its sender's address is
    /// recorded under that identifier, overwriting any earlier address;
    /// anything else is silently skipped.
    pub fn note_datagram(&mut self, data: &[u8], source: Option<Ipv4>)
        requires
            old(self).wf(),
        ensures
            final (self).wf(),
            final (self).log@ == old(self).log@.push((data@, source)),
            final (self).found@ == match (spec_datagram_mac(data@), source) {
                (Some(mac), Some(ip)) => old(self).found@.insert(mac, ip),
                _ => old(self).found@,
            },
    {
        let mac_opt = match bytes_to_text(vstd::slice::slice_to_vec(data)) {
            Ok(text) => json_result_mac(text.as_str()),
            Err(_) => None,
        };
        self.log = Ghost(self.log@.push((data@, source)));
        proof {
            assert(self.log@.drop_last() =~= old(self).log@);
        }
        match (mac_opt, source) {
            (Some(mac), Some(ip)) => {
                self.found.insert(mac, ip);
            },
            _ => {},
        }
    }

    /// The collected bulbs, one per identifier.
    pub fn bulbs(&self) -> (r: Vec<DiscoveredBulb>)
        requires
            self.wf(),
        ensures
            spec_bulbs_map(r@) == self.found@,
            r@.len() == self.found@.dom().len(),
    {
        let n = self.found.items.len();
        let mut out: Vec<DiscoveredBulb> = Vec::new();
        let mut i: usize = 0;
        while i < n
            invariant
                n == self.found.items@.len(),
                i <= n,
                out@.len() == i,
                spec_bulbs_map(out@) == spec_pairs_map(self.found.items@.take(i as int)),
            decreases n - i,
        {
            let ghost prev = out@;
            let pair = &self.found.items[i];
            out.push(DiscoveredBulb { ip: pair.1, mac: pair.0.clone() });
            proof {
                assert(out@.drop_last() =~= prev);
                assert(self.found.items@.take(i + 1 as int).drop_last() =~= self.found.items@.take(
                    i as int,
                ));
                assert(self.found.items@.take(i + 1 as int).last() == self.found.items@[i as int]);
            }
            i = i + 1;
        }
        proof {
            assert(self.found.items@.take(n as int) =~= self.found.items@);
            lemma_strmap_card(&self.found);
        }
        out
    }
}

/// Discovery deduplicates: a log of two datagrams whose replies carry the
/// same identifier yields exactly one entry, under that identifier, holding
/// the second datagram's sender address.
pub proof fn lemma_discovery_deduplicates(
    d1: Seq<u8>,
    src1: Ipv4,
    d2: Seq<u8>,
    src2: Ipv4,
    mac: Seq<char>,
)
    requires
        spec_datagram_mac(d1) == Some(mac),
        spec_datagram_mac(d2) == Some(mac),
    ensures
        spec_collect(seq![(d1, Some(src1)), (d2, Some(src2))]) == Map::<Seq<char>,
            Ipv4,
        >::empty().insert(mac, src2),
        spec_collect(seq![(d1, Some(src1)), (d2, Some(src2))]).dom().len() == 1,
{
    let log = seq![(d1, Some(src1)), (d2, Some(src2))];
    let l1 = seq![(d1, Some(src1))];
    let l0 = Seq::<(Seq<u8>, Option<Ipv4>)>::empty();
    assert(spec_collect(l0) == Map::<Seq<char>, Ipv4>::empty());
    assert(l1.drop_last() =~= l0);
    assert(l1.last() == (d1, Some(src1)));
    assert(spec_collect(l1) == Map::<Seq<char>, Ipv4>::empty().insert(mac, src1));
    assert(log.drop_last() =~= l1);
    assert(log.last() == (d2, Some(src2)));
    assert(spec_collect(log) == Map::<Seq<char>, Ipv4>::empty().insert(mac, src1).insert(
        mac,
        src2,
    ));
    assert(Map::<Seq<char>, Ipv4>::empty().insert(mac, src1).insert(mac, src2) =~= Map::<
        Seq<char>,
        Ipv4,
    >::empty().insert(mac, src2));
    assert(spec_collect(log).dom() =~= Set::<Seq<char>>::empty().insert(mac));
}

/// A scan that hears nothing yields the empty set, not an error: the empty
/// datagram log collects to the empty map, so a collector that saw no
/// datagrams hands back no bulbs.
pub proof fn lemma_discovery_empty_is_empty(c: DiscoveryCollector)
    requires
        c.wf(),
        c.log@ == Seq::<(Seq<u8>, Option<Ipv4>)>::empty(),
    ensures
        c.found@ == Map::<Seq<char>, Ipv4>::empty(),
        c.found@.dom() =~= Set::<Seq<char>>::empty(),
{
    assert(spec_collect(c.log@) == Map::<Seq<char>, Ipv4>::empty());
    assert(Map::<Seq<char>, Ipv4>::empty().dom() =~= Set::<Seq<char>>::empty());
}

} // verus!
