use scope_signals::protocol::cancel_step;
use scope_signals::protocol::CancelPhase;
use scope_signals::protocol::ChannelStatus;
use scope_signals::protocol::LeafStatus;

#[test]
fn listening_stays_pending_while_nothing_resolves() {
    let step = cancel_step(
        CancelPhase::Listening,
        ChannelStatus::Pending,
        LeafStatus::Pending,
    );
    assert_eq!(step, (CancelPhase::Listening, false));
}

#[test]
fn leaf_close_cancels_like_a_root_resolution() {
    let implicit = cancel_step(
        CancelPhase::Listening,
        ChannelStatus::Pending,
        LeafStatus::Closed,
    );
    assert_eq!(implicit, (CancelPhase::Cancelled, true));
    let by_root = cancel_step(
        CancelPhase::Listening,
        ChannelStatus::Fired,
        LeafStatus::Pending,
    );
    assert_eq!(implicit, by_root);
}

#[test]
fn detach_narrows_without_resolving() {
    let step = cancel_step(
        CancelPhase::Listening,
        ChannelStatus::Pending,
        LeafStatus::Detached,
    );
    assert_eq!(step, (CancelPhase::RootOnly, false));
}

#[test]
fn root_only_resolves_exactly_on_root_resolution() {
    let pending = cancel_step(
        CancelPhase::RootOnly,
        ChannelStatus::Pending,
        LeafStatus::Pending,
    );
    assert_eq!(pending, (CancelPhase::RootOnly, false));
    let fired = cancel_step(
        CancelPhase::RootOnly,
        ChannelStatus::Fired,
        LeafStatus::Pending,
    );
    assert_eq!(fired, (CancelPhase::Cancelled, true));
    let closed = cancel_step(
        CancelPhase::RootOnly,
        ChannelStatus::Closed,
        LeafStatus::Pending,
    );
    assert_eq!(closed, (CancelPhase::Cancelled, true));
}

#[test]
fn root_resolution_overrides_any_leaf_observation() {
    let leaves = [LeafStatus::Pending, LeafStatus::Detached, LeafStatus::Closed];
    let roots = [ChannelStatus::Fired, ChannelStatus::Closed];
    for root in roots {
        for leaf in leaves {
            let step = cancel_step(CancelPhase::Listening, root, leaf);
            assert_eq!(step, (CancelPhase::Cancelled, true));
        }
    }
}

#[test]
fn cancelled_is_terminal_and_idempotent() {
    let leaves = [LeafStatus::Pending, LeafStatus::Detached, LeafStatus::Closed];
    let roots = [ChannelStatus::Pending, ChannelStatus::Fired, ChannelStatus::Closed];
    for root in roots {
        for leaf in leaves {
            let step = cancel_step(CancelPhase::Cancelled, root, leaf);
            assert_eq!(step, (CancelPhase::Cancelled, true));
        }
    }
}
