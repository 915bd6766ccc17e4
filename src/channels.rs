//! Channel listings: the endpoint filters of CLN's "list channels" RPC, the
//! summaries built from its records, and the merge of the two directional
//! listings into one.
use vstd::prelude::*;
use crate::errors::LightningError;

verus! {

/// What is kept of a channel: its capacity in millisatoshi.
#[derive(Clone, Copy, Debug, PartialEq, Eq, Structural)]
pub struct ChannelSummary {
    pub capacity_msat: u64,
}

/// The endpoint filter of one "list channels" request: channels whose
/// source is the given key, or channels whose destination is.
#[derive(Clone, Debug)]
pub struct ChannelFilter {
    pub source: Option<Vec<u8>>,
    pub destination: Option<Vec<u8>>,
}

fn key_bytes(key: &[u8; 33]) -> (r: Vec<u8>)
    ensures
        r@ == key@,
{
    let mut r: Vec<u8> = Vec::with_capacity(33);
    let mut i: usize = 0;
    while i < 33
        invariant
            i <= 33,
            key@.len() == 33,
            r@ == key@.subrange(0, i as int),
        decreases 33 - i,
    {
        r.push(key[i]);
        proof {
            assert(key@.subrange(0, i + 1) =~= key@.subrange(0, i as int).push(key@[i as int]));
        }
        i = i + 1;
    }
    proof {
        assert(key@.subrange(0, 33) =~= key@);
    }
    r
}

/// The filter that lists the channels this node opened (`is_source`) or
/// the channels opened toward it.
pub fn channel_filter(own_key: &[u8; 33], is_source: bool) -> (r: ChannelFilter)
    ensures
        is_source ==> (r.source matches Some(k) && k@ == own_key@) && r.destination is None,
        !is_source ==> r.source is None && (r.destination matches Some(k) && k@ == own_key@),
{
    let key = key_bytes(own_key);
    if is_source {
        ChannelFilter { source: Some(key), destination: None }
    } else {
        ChannelFilter { source: None, destination: Some(key) }
    }
}

/// A reported amount, zero where the record carries none.
pub open spec fn amount_or_zero(a: Option<u64>) -> u64 {
    match a {
        Some(v) => v,
        None => 0,
    }
}

/// One summary per channel record, in order, with the record's amount as
/// capacity.
pub fn channel_summaries(amounts: &Vec<Option<u64>>) -> (r: Vec<ChannelSummary>)
    ensures
        r@.len() == amounts@.len(),
        forall|i: int| 0 <= i < r@.len() ==> #[trigger] r@[i].capacity_msat == amount_or_zero(amounts@[i]),
{
    let mut r: Vec<ChannelSummary> = Vec::with_capacity(amounts.len());
    let mut i: usize = 0;
    while i < amounts.len()
        invariant
            i <= amounts@.len(),
            r@.len() == i,
            forall|j: int| 0 <= j < i ==> #[trigger] r@[j].capacity_msat == amount_or_zero(amounts@[j]),
        decreases amounts@.len() - i,
    {
        let capacity_msat = match amounts[i] {
            Some(v) => v,
            None => 0,
        };
        r.push(ChannelSummary { capacity_msat });
        i = i + 1;
    }
    r
}

/// The result of one "list channels" RPC: its failure becomes
/// `ListChannelsError`, its records become summaries.
pub fn listing_result(reply: Result<Vec<Option<u64>>, String>) -> (r: Result<Vec<ChannelSummary>, LightningError>)
    ensures
        match reply {
            Err(m) => r == Err::<Vec<ChannelSummary>, LightningError>(LightningError::ListChannelsError(m)),
            Ok(a) => r matches Ok(s) && s@.len() == a@.len() && forall|i: int|
                0 <= i < s@.len() ==> #[trigger] s@[i].capacity_msat == amount_or_zero(a@[i]),
        },
{
    match reply {
        Err(m) => Err(LightningError::ListChannelsError(m)),
        Ok(a) => Ok(channel_summaries(&a)),
    }
}

/// The millisatoshi amount of a capacity in satoshi, if it is not negative
/// and fits in 64 bits.
pub open spec fn msat_of_sat(sat: i64) -> Option<u64> {
    if 0 <= sat && sat * 1000 <= u64::MAX {
        Some((sat * 1000) as u64)
    } else {
        None
    }
}

/// The result of LND's "list channels" RPC, whose capacities are in
/// satoshi: its failure, or a capacity that is negative or does not fit in
/// millisatoshi, becomes `ListChannelsError`; otherwise one summary per
/// channel, in order.
pub fn lnd_listing_result(reply: Result<Vec<i64>, String>) -> (r: Result<Vec<ChannelSummary>, LightningError>)
    ensures
        match reply {
            Err(m) => r == Err::<Vec<ChannelSummary>, LightningError>(LightningError::ListChannelsError(m)),
            Ok(c) => if forall|i: int| 0 <= i < c@.len() ==> #[trigger] msat_of_sat(c@[i]) is Some {
                r matches Ok(s) && s@.len() == c@.len() && forall|i: int|
                    0 <= i < s@.len() ==> Some(#[trigger] s@[i].capacity_msat) == msat_of_sat(c@[i])
            } else {
                r matches Err(LightningError::ListChannelsError(_))
            },
        },
{
    match reply {
        Err(m) => Err(LightningError::ListChannelsError(m)),
        Ok(c) => sat_summaries(&c),
    }
}

fn sat_summaries(capacities: &Vec<i64>) -> (r: Result<Vec<ChannelSummary>, LightningError>)
    ensures
        if forall|i: int| 0 <= i < capacities@.len() ==> #[trigger] msat_of_sat(capacities@[i]) is Some {
            r matches Ok(s) && s@.len() == capacities@.len() && forall|i: int|
                0 <= i < s@.len() ==> Some(#[trigger] s@[i].capacity_msat) == msat_of_sat(capacities@[i])
        } else {
            r matches Err(LightningError::ListChannelsError(_))
        },
{
    let mut r: Vec<ChannelSummary> = Vec::with_capacity(capacities.len());
    let mut i: usize = 0;
    while i < capacities.len()
        invariant
            i <= capacities@.len(),
            r@.len() == i,
            forall|j: int| 0 <= j < i ==> #[trigger] msat_of_sat(capacities@[j]) is Some,
            forall|j: int|
                0 <= j < i ==> Some(#[trigger] r@[j].capacity_msat) == msat_of_sat(capacities@[j]),
        decreases capacities@.len() - i,
    {
        let sat = capacities[i];
        if sat < 0 || sat as u64 > u64::MAX / 1000 {
            proof {
                assert(msat_of_sat(capacities@[i as int]) is None);
            }
            return Err(LightningError::ListChannelsError("channel capacity out of range".to_string()));
        }
        r.push(ChannelSummary { capacity_msat: sat as u64 * 1000 });
        i = i + 1;
    }
    Ok(r)
}

/// All channels of a node from its two directional listings: the channels
/// it opened, then those opened toward it, with no deduplication. A failure
/// of either listing is the result, and no partial list is returned.
pub fn own_channels(
    source: Result<Vec<ChannelSummary>, LightningError>,
    destination: Result<Vec<ChannelSummary>, LightningError>,
) -> (r: Result<Vec<ChannelSummary>, LightningError>)
    ensures
        r is Ok <==> source is Ok && destination is Ok,
        source matches Err(e) ==> r == Err::<Vec<ChannelSummary>, LightningError>(e),
        source is Ok ==> (destination matches Err(e) ==> r == Err::<Vec<ChannelSummary>, LightningError>(e)),
        source matches Ok(s) ==> (destination matches Ok(d) ==> (r matches Ok(all) && all@ == s@ + d@)),
{
    let mut all = match source {
        Ok(s) => s,
        Err(e) => {
            return Err(e);
        },
    };
    let mut theirs = match destination {
        Ok(d) => d,
        Err(e) => {
            return Err(e);
        },
    };
    all.append(&mut theirs);
    Ok(all)
}

} // verus!
