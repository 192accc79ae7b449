use openeq::channel_routing::{chain_for_channel, Chain};

#[test]
fn first_channel_is_left_second_is_right() {
    assert_eq!(chain_for_channel(0), Some(Chain::Left));
    assert_eq!(chain_for_channel(1), Some(Chain::Right));
}

#[test]
fn further_channels_pass_unchanged() {
    assert_eq!(chain_for_channel(2), None);
    assert_eq!(chain_for_channel(7), None);
    assert_eq!(chain_for_channel(usize::MAX), None);
}

#[test]
fn no_chain_serves_two_channels() {
    let chains: Vec<Chain> = (0..8).filter_map(chain_for_channel).collect();
    assert_eq!(chains, vec![Chain::Left, Chain::Right]);
}
