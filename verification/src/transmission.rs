//! Writing packets one after the other.

use vstd::prelude::*;

use crate::packet::Packet;

verus! {

/// Packets that are being written, in order, up to the first write that fails
pub struct Transmission {
    packets: Vec<Packet>,
    next: usize,
}

/// Where a write has brought a transmission; `E` is the transport's error
pub enum TransmissionProgress<E> {
    /// There is more to write
    Pending(Transmission),
    /// All packets are written
    Done,
    /// A write failed, and nothing more is to be written
    Failed(E),
}

/// Where a transmission stands; while it goes on, with the packets that are still to be written.
pub enum TransmissionView<E> {
    Pending(Seq<Packet>),
    Done,
    Failed(E),
}

/// The packets that are still to be written.
impl View for Transmission {
    type V = Seq<Packet>;

    closed spec fn view(&self) -> Seq<Packet> {
        self.packets@.skip(self.next as int)
    }
}

impl<E> TransmissionProgress<E> {
    /// Where the transmission stands.
    pub open spec fn stand(self) -> TransmissionView<E> {
        match self {
            TransmissionProgress::Pending(transmission) => TransmissionView::Pending(
                transmission@,
            ),
            TransmissionProgress::Done => TransmissionView::Done,
            TransmissionProgress::Failed(error) => TransmissionView::Failed(error),
        }
    }
}

/// Where the write of the first packet brings a transmission.
pub open spec fn after_write<E>(rest: Seq<Packet>, written: Result<(), E>) -> TransmissionView<E> {
    match written {
        Ok(_) => if rest.len() <= 1 {
            TransmissionView::Done
        } else {
            TransmissionView::Pending(rest.skip(1))
        },
        Err(error) => TransmissionView::Failed(error),
    }
}

impl Transmission {
    #[verifier::type_invariant]
    spec fn has_packet_to_write(self) -> bool {
        self.next < self.packets@.len()
    }

    /// A transmission of the packets, of which there is at least one
    pub(crate) fn new(packets: Vec<Packet>) -> (transmission: Self)
        requires
            packets@.len() > 0,
        ensures
            transmission@ == packets@,
    {
        assert(packets@.skip(0) =~= packets@);
        Transmission { packets, next: 0 }
    }

    /// The packet to write next
    pub fn packet(&self) -> (packet: Packet)
        ensures
            self@.len() > 0,
            packet == self@[0],
    {
        proof {
            use_type_invariant(self);
        }
        self.packets[self.next]
    }

    /// Go on with what came of writing the packet
    pub fn step<E>(self, written: Result<(), E>) -> (progress: TransmissionProgress<E>)
        ensures
            progress.stand() == after_write(self@, written),
            self@.len() > 0,
            match written {
                Ok(_) => if self@.len() == 1 {
                    progress is Done
                } else {
                    progress matches TransmissionProgress::Pending(rest) && rest@.len()
                        == self@.len() - 1 && forall|i: int|
                        0 <= i < rest@.len() ==> #[trigger] rest@[i] == self@[i + 1]
                },
                Err(error) => progress == TransmissionProgress::Failed(error),
            },
    {
        proof {
            use_type_invariant(&self);
        }
        match written {
            Ok(()) => {
                if self.packets.len() - self.next <= 1 {
                    TransmissionProgress::Done
                } else {
                    assert(self@.skip(1) =~= self.packets@.skip(self.next + 1));
                    TransmissionProgress::Pending(
                        Transmission { packets: self.packets, next: self.next + 1 },
                    )
                }
            },
            Err(error) => TransmissionProgress::Failed(error),
        }
    }
}

/// Where a transmission of the packets stands after a sequence of writes.
pub open spec fn transmitting<E>(
    packets: Seq<Packet>,
    writes: Seq<Result<(), E>>,
) -> TransmissionView<E>
    decreases writes.len(),
{
    if writes.len() == 0 {
        TransmissionView::Pending(packets)
    } else {
        match transmitting(packets, writes.drop_last()) {
            TransmissionView::Pending(rest) => after_write(rest, writes.last()),
            end => end,
        }
    }
}

/// A transmission goes through its packets in order, one for each write. It is done once all of
/// them were written, and ends with the first write that failed, and with its error.
pub proof fn transmission_ends_with_first_failure<E>(
    packets: Seq<Packet>,
    writes: Seq<Result<(), E>>,
)
    requires
        packets.len() > 0,
    ensures
        match transmitting(packets, writes) {
            TransmissionView::Pending(rest) => {
                &&& writes.len() < packets.len()
                &&& rest == packets.skip(writes.len() as int)
                &&& forall|i: int| 0 <= i < writes.len() ==> #[trigger] writes[i] is Ok
            },
            TransmissionView::Done => {
                &&& writes.len() >= packets.len()
                &&& forall|i: int| 0 <= i < packets.len() ==> #[trigger] writes[i] is Ok
            },
            TransmissionView::Failed(error) => exists|k: int|
                {
                    &&& 0 <= k < writes.len()
                    &&& k < packets.len()
                    &&& #[trigger] writes[k] == Err::<(), E>(error)
                    &&& forall|i: int| 0 <= i < k ==> #[trigger] writes[i] is Ok
                },
        },
    decreases writes.len(),
{
    if writes.len() == 0 {
        assert(packets.skip(0) =~= packets);
    } else {
        let earlier = writes.drop_last();
        transmission_ends_with_first_failure(packets, earlier);
        assert(forall|i: int| 0 <= i < earlier.len() ==> earlier[i] == writes[i]);
        assert(writes[writes.len() - 1] == writes.last());
        match transmitting(packets, earlier) {
            TransmissionView::Pending(rest) => {
                assert(rest.skip(1) =~= packets.skip(writes.len() as int));
            },
            TransmissionView::Done => {},
            TransmissionView::Failed(error) => {
                let k = choose|k: int|
                    {
                        &&& 0 <= k < earlier.len()
                        &&& k < packets.len()
                        &&& #[trigger] earlier[k] == Err::<(), E>(error)
                        &&& forall|i: int| 0 <= i < k ==> #[trigger] earlier[i] is Ok
                    };
                assert(writes[k] == Err::<(), E>(error));
            },
        }
    }
}

} // verus!
