use nodegaze::{
    channel_filter, channel_summaries, listing_result, lnd_listing_result, own_channels, ChannelSummary,
    LightningError,
};

fn caps(v: &[u64]) -> Vec<ChannelSummary> {
    v.iter().map(|c| ChannelSummary { capacity_msat: *c }).collect()
}

#[test]
fn own_channels_source_then_destination() {
    let r = own_channels(Ok(caps(&[1000])), Ok(caps(&[2000]))).unwrap();
    assert_eq!(r, caps(&[1000, 2000]));
}

#[test]
fn own_channels_keeps_duplicates() {
    let r = own_channels(Ok(caps(&[5, 7])), Ok(caps(&[5]))).unwrap();
    assert_eq!(r, caps(&[5, 7, 5]));
}

#[test]
fn own_channels_source_failure_aborts() {
    let r = own_channels(Err(LightningError::ListChannelsError("a".to_string())), Ok(caps(&[2000])));
    assert_eq!(r, Err(LightningError::ListChannelsError("a".to_string())));
}

#[test]
fn own_channels_destination_failure_aborts() {
    let r = own_channels(Ok(caps(&[1000])), Err(LightningError::ListChannelsError("b".to_string())));
    assert_eq!(r, Err(LightningError::ListChannelsError("b".to_string())));
}

#[test]
fn listing_result_maps_amounts_and_errors() {
    let r = listing_result(Ok(vec![Some(1000), None, Some(u64::MAX)])).unwrap();
    assert_eq!(r, caps(&[1000, 0, u64::MAX]));
    let e = listing_result(Err("down".to_string()));
    assert_eq!(e, Err(LightningError::ListChannelsError("down".to_string())));
    assert!(channel_summaries(&vec![]).is_empty());
}

#[test]
fn channel_filter_sets_one_endpoint() {
    let mut key = [0u8; 33];
    key[0] = 0x03;
    key[32] = 0xaa;
    let f = channel_filter(&key, true);
    assert_eq!(f.source, Some(key.to_vec()));
    assert_eq!(f.destination, None);
    let f = channel_filter(&key, false);
    assert_eq!(f.source, None);
    assert_eq!(f.destination, Some(key.to_vec()));
}

#[test]
fn lnd_listing_converts_satoshi_to_millisatoshi() {
    let r = lnd_listing_result(Ok(vec![1, 0, 250_000])).unwrap();
    assert_eq!(r, caps(&[1000, 0, 250_000_000]));
    let largest = (u64::MAX / 1000) as i64;
    let r = lnd_listing_result(Ok(vec![largest])).unwrap();
    assert_eq!(r, caps(&[largest as u64 * 1000]));
}

#[test]
fn lnd_listing_rejects_bad_capacity_and_failure() {
    assert!(matches!(lnd_listing_result(Ok(vec![5, -1])), Err(LightningError::ListChannelsError(_))));
    assert!(matches!(lnd_listing_result(Ok(vec![i64::MAX])), Err(LightningError::ListChannelsError(_))));
    assert_eq!(
        lnd_listing_result(Err("down".to_string())),
        Err(LightningError::ListChannelsError("down".to_string()))
    );
}
