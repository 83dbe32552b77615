//! The decisions of the API server's background loops: when buffered events
//! are saved and when gathered metrics are tracked.
use vstd::prelude::*;

verus! {

/// What the event loop learned while it waited.
pub enum BufferEvent<E> {
    /// An event arrived.
    Received(E),
    /// Every sender is gone.
    Closed,
    /// Nothing arrived before the save timeout.
    TimedOut,
}

/// What the event loop does next.
pub enum BufferAction<E> {
    /// Save these events together, then wait again.
    Save(Vec<E>),
    /// Wait again.
    Wait,
    /// Leave the loop.
    Stop,
}

/// The events that a step hands over to be saved.
pub open spec fn saved<E>(a: BufferAction<E>) -> Seq<E> {
    match a {
        BufferAction::Save(v) => v@,
        _ => Seq::empty(),
    }
}

/// The event a step received.
pub open spec fn received<E>(ev: BufferEvent<E>) -> Seq<E> {
    match ev {
        BufferEvent::Received(e) => seq![e],
        _ => Seq::empty(),
    }
}

/// One step of the event loop: an event joins the buffer and the buffer is
/// saved once it holds `capacity` events; on a timeout a buffer with events in
/// it is saved; when the channel closes the loop stops.
pub fn event_buffer_step<E>(buffer: &mut Vec<E>, capacity: usize, event: BufferEvent<E>) -> (r:
    BufferAction<E>)
    requires
        capacity > 0,
        old(buffer)@.len() < capacity,
    ensures
        event is Closed ==> r is Stop && final(buffer)@ == old(buffer)@,
        !(event is Closed) ==> saved(r) + final(buffer)@ == old(buffer)@ + received(event),
        !(event is Closed) ==> final(buffer)@.len() < capacity,
        event is Received ==> (r is Save <==> old(buffer)@.len() + 1 == capacity),
        event is TimedOut ==> (r is Save <==> old(buffer)@.len() > 0),
        r is Save ==> final(buffer)@.len() == 0 && saved(r).len() > 0,
        (final(buffer)@, saved(r)) == spec_buffer_step(old(buffer)@, capacity as nat, event),
{
    match event {
        BufferEvent::Received(e) => {
            buffer.push(e);
            if buffer.len() == capacity {
                let mut to_save: Vec<E> = Vec::new();
                std::mem::swap(&mut to_save, buffer);
                assert(saved(BufferAction::Save(to_save)) + buffer@ =~= to_save@);
                BufferAction::Save(to_save)
            } else {
                assert(saved(BufferAction::<E>::Wait) + buffer@ =~= buffer@);
                BufferAction::Wait
            }
        },
        BufferEvent::Closed => BufferAction::Stop,
        BufferEvent::TimedOut => {
            if buffer.len() > 0 {
                let mut to_save: Vec<E> = Vec::new();
                std::mem::swap(&mut to_save, buffer);
                assert(saved(BufferAction::Save(to_save)) + buffer@ =~= to_save@);
                assert(old(buffer)@ + received(BufferEvent::<E>::TimedOut) =~= old(buffer)@);
                BufferAction::Save(to_save)
            } else {
                assert(saved(BufferAction::<E>::Wait) + buffer@ =~= buffer@);
                assert(old(buffer)@ + received(BufferEvent::<E>::TimedOut) =~= old(buffer)@);
                BufferAction::Wait
            }
        },
    }
}

/// One step of the event loop, as a function of the buffer and the event.
pub open spec fn spec_buffer_step<E>(buffer: Seq<E>, capacity: nat, event: BufferEvent<E>) -> (
    Seq<E>,
    Seq<E>,
) {
    match event {
        BufferEvent::Received(e) => if buffer.len() + 1 == capacity {
            (Seq::empty(), buffer.push(e))
        } else {
            (buffer.push(e), Seq::empty())
        },
        BufferEvent::Closed => (buffer, Seq::empty()),
        BufferEvent::TimedOut => (Seq::empty(), buffer),
    }
}

/// The buffer and the events saved after a run of steps that ends before the
/// channel closes.
pub open spec fn run_buffer<E>(events: Seq<BufferEvent<E>>, capacity: nat) -> (Seq<E>, Seq<E>)
    decreases events.len(),
{
    if events.len() == 0 {
        (Seq::empty(), Seq::empty())
    } else {
        let (buf, saved_so_far) = run_buffer(events.drop_last(), capacity);
        let (buf2, batch) = spec_buffer_step(buf, capacity, events.last());
        (buf2, saved_so_far + batch)
    }
}

/// All the events received up to some point.
pub open spec fn all_received<E>(events: Seq<BufferEvent<E>>) -> Seq<E>
    decreases events.len(),
{
    if events.len() == 0 {
        Seq::empty()
    } else {
        all_received(events.drop_last()) + received(events.last())
    }
}

/// No event is lost or reordered while the channel is open: after any run of
/// steps, the events saved so far followed by those still buffered are
/// exactly the events received, in the order they came, and the buffer holds
/// fewer than `capacity` events.
pub proof fn law_buffer_keeps_every_event<E>(events: Seq<BufferEvent<E>>, capacity: nat)
    requires
        capacity > 0,
        forall|i: int| 0 <= i < events.len() ==> !(#[trigger] events[i] is Closed),
    ensures
        run_buffer(events, capacity).1 + run_buffer(events, capacity).0 == all_received(events),
        run_buffer(events, capacity).0.len() < capacity,
    decreases events.len(),
{
    if events.len() > 0 {
        let t = events.drop_last();
        assert forall|i: int| 0 <= i < t.len() implies !(#[trigger] t[i] is Closed) by {
            assert(t[i] == events[i]);
        }
        law_buffer_keeps_every_event(t, capacity);
        let (buf, s) = run_buffer(t, capacity);
        assert(events.last() == events[events.len() - 1]);
        match events.last() {
            BufferEvent::Received(e) => {
                if buf.len() + 1 == capacity {
                    assert(s + buf.push(e) + Seq::<E>::empty() =~= s + buf + seq![e]);
                } else {
                    assert(s + Seq::<E>::empty() + buf.push(e) =~= s + buf + seq![e]);
                }
            },
            BufferEvent::Closed => {},
            BufferEvent::TimedOut => {
                assert(s + buf + Seq::<E>::empty() =~= s + buf + Seq::<E>::empty());
                assert(s + buf =~= s + buf + Seq::<E>::empty());
            },
        }
    }
}

/// What the metrics loop learned while it waited.
pub enum MetricEvent<M> {
    Received(M),
    Closed,
    TimedOut,
}

/// What the metrics loop does next.
pub enum MetricAction<M> {
    /// Record the metric in the store, and keep it for tracking.
    Record,
    /// Record the metric in the store only (a passthrough call).
    RecordOnly,
    /// Send these metrics to the tracker.
    Track(Vec<M>),
    Stop,
}

/// The metrics that a step hands to the tracker.
pub open spec fn sent_to_tracker<M>(a: MetricAction<M>) -> Seq<M> {
    match a {
        MetricAction::Track(v) => v@,
        _ => Seq::empty(),
    }
}

/// One step of the metrics loop, as a function of the kept metrics, the event
/// and whether a received metric is a passthrough call: the metrics kept
/// after it, and those tracked.
pub open spec fn spec_metric_step<M>(buffer: Seq<M>, event: MetricEvent<M>, is_passthrough: bool) -> (
    Seq<M>,
    Seq<M>,
) {
    match event {
        MetricEvent::Received(m) => if is_passthrough {
            (buffer, Seq::empty())
        } else {
            (buffer.push(m), Seq::empty())
        },
        MetricEvent::Closed => (buffer, Seq::empty()),
        MetricEvent::TimedOut => (Seq::empty(), buffer),
    }
}

/// The metrics kept and those tracked after a run of steps, each event with
/// whether its metric is a passthrough call.
pub open spec fn run_metrics<M>(events: Seq<(MetricEvent<M>, bool)>) -> (Seq<M>, Seq<M>)
    decreases events.len(),
{
    if events.len() == 0 {
        (Seq::empty(), Seq::empty())
    } else {
        let (kept, tracked_so_far) = run_metrics(events.drop_last());
        let (kept2, batch) = spec_metric_step(kept, events.last().0, events.last().1);
        (kept2, tracked_so_far + batch)
    }
}

/// The metrics of a run that are not passthrough calls, in the order they came.
pub open spec fn trackable<M>(events: Seq<(MetricEvent<M>, bool)>) -> Seq<M>
    decreases events.len(),
{
    if events.len() == 0 {
        Seq::empty()
    } else {
        let rest = trackable(events.drop_last());
        match events.last().0 {
            MetricEvent::Received(m) => if events.last().1 {
                rest
            } else {
                rest.push(m)
            },
            _ => rest,
        }
    }
}

/// Every metric but the passthrough calls is tracked once, in the order it
/// came, and no passthrough call is: after any run of steps, the metrics
/// tracked so far followed by those still kept are exactly the received
/// metrics that are not passthrough calls.
pub proof fn law_metrics_tracked_once<M>(events: Seq<(MetricEvent<M>, bool)>)
    ensures
        run_metrics(events).1 + run_metrics(events).0 == trackable(events),
    decreases events.len(),
{
    if events.len() > 0 {
        let t = events.drop_last();
        law_metrics_tracked_once(t);
        let (kept, tr) = run_metrics(t);
        match events.last().0 {
            MetricEvent::Received(m) => {
                if events.last().1 {
                    assert(tr + Seq::<M>::empty() + kept =~= tr + kept);
                } else {
                    assert(tr + Seq::<M>::empty() + kept.push(m) =~= (tr + kept).push(m));
                }
            },
            MetricEvent::Closed => {
                assert(tr + Seq::<M>::empty() + kept =~= tr + kept);
            },
            MetricEvent::TimedOut => {
                assert(tr + kept + Seq::<M>::empty() =~= tr + kept);
            },
        }
    }
}

/// One step of the metrics loop: every metric is recorded, and all but
/// passthrough calls are kept; on a timeout what was kept goes to the tracker
/// and the list starts over; when the channel closes the loop stops.
pub fn metric_buffer_step<M>(buffer: &mut Vec<M>, event: MetricEvent<M>, is_passthrough: bool) -> (r:
    MetricAction<M>)
    ensures
        match event {
            MetricEvent::Received(m) => if is_passthrough {
                r is RecordOnly && final(buffer)@ == old(buffer)@
            } else {
                r is Record && final(buffer)@ == old(buffer)@.push(m)
            },
            MetricEvent::Closed => r is Stop && final(buffer)@ == old(buffer)@,
            MetricEvent::TimedOut => (r matches MetricAction::Track(v) && v@ == old(buffer)@)
                && final(buffer)@.len() == 0,
        },
        (final(buffer)@, sent_to_tracker(r)) == spec_metric_step(old(buffer)@, event, is_passthrough),
{
    match event {
        MetricEvent::Received(m) => {
            if is_passthrough {
                MetricAction::RecordOnly
            } else {
                buffer.push(m);
                MetricAction::Record
            }
        },
        MetricEvent::Closed => MetricAction::Stop,
        MetricEvent::TimedOut => {
            let mut to_track: Vec<M> = Vec::new();
            std::mem::swap(&mut to_track, buffer);
            MetricAction::Track(to_track)
        },
    }
}

} // verus!
