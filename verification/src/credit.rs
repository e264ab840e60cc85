use vstd::prelude::*;
use crate::packets::{
    MintOrder, Packet, PacketProcessingError, PacketView, mint_order_view, packet_mint_order,
    spec_mint_order,
};

verus! {

/// Why crediting the packets received from the chain stopped.
#[derive(Debug, Clone, Copy, PartialEq, Eq, Structural)]
pub enum CreditError {
    /// A packet does not travel the connection's channel or its data is
    /// invalid.
    Packet(PacketProcessingError),
    /// The chain did not accept the acknowledgement of a packet.
    AcknowledgementRejected,
    /// Minting on the solo machine failed.
    MintFailed,
}

/// The next piece of outside work in crediting received packets.
#[derive(Debug, Clone)]
pub enum CreditAction {
    /// Acknowledge packet `index` on the chain.
    Acknowledge { index: usize },
    /// Mint on the solo machine what packet `index` carries.
    Mint { index: usize, order: MintOrder },
    /// Every packet was credited.
    Done,
    /// Crediting stopped.
    Stopped { error: CreditError },
}

/// The mathematical content of a [`CreditAction`].
pub ghost enum CreditActionView {
    Acknowledge { index: nat },
    Mint { index: nat, order: (Seq<char>, u64, Seq<char>) },
    Done,
    Stopped { error: CreditError },
}

pub open spec fn credit_action_view(a: CreditAction) -> CreditActionView {
    match a {
        CreditAction::Acknowledge { index } => CreditActionView::Acknowledge { index: index as nat },
        CreditAction::Mint { index, order } => CreditActionView::Mint {
            index: index as nat,
            order: (order.receiver@, order.amount, order.denom@),
        },
        CreditAction::Done => CreditActionView::Done,
        CreditAction::Stopped { error } => CreditActionView::Stopped { error },
    }
}

/// The channel that received packets must have travelled: the chain's port
/// and the two ends of the connection's channel.
pub ghost struct Route {
    pub port_id: Seq<char>,
    pub solo_machine_channel_id: Seq<char>,
    pub tendermint_channel_id: Seq<char>,
}

/// Where crediting stands: the packet at hand, whether its acknowledgement
/// was accepted, and why crediting stopped, if it did.
pub type CreditState = (nat, bool, Option<CreditError>);

pub open spec fn order_of(route: Route, p: PacketView) -> Result<
    (Seq<char>, u64, Seq<char>),
    PacketProcessingError,
> {
    spec_mint_order(route.port_id, route.solo_machine_channel_id, route.tendermint_channel_id, p)
}

/// The action due in state `s`: packets are credited in order; each is
/// checked, then acknowledged on the chain, then minted on the solo
/// machine.
pub open spec fn spec_credit_action(route: Route, packets: Seq<PacketView>, s: CreditState) -> CreditActionView {
    let (index, acknowledged, error) = s;
    if error is Some {
        CreditActionView::Stopped { error: error->0 }
    } else if index >= packets.len() {
        CreditActionView::Done
    } else {
        match order_of(route, packets[index as int]) {
            Err(e) => CreditActionView::Stopped { error: CreditError::Packet(e) },
            Ok(order) => if acknowledged {
                CreditActionView::Mint { index, order }
            } else {
                CreditActionView::Acknowledge { index }
            },
        }
    }
}

/// The state that the outcome `ok` of the due action leads to.
pub open spec fn spec_credit_step(route: Route, packets: Seq<PacketView>, s: CreditState, ok: bool) -> CreditState {
    let (index, acknowledged, error) = s;
    if error is Some || index >= packets.len() {
        s
    } else {
        match order_of(route, packets[index as int]) {
            Err(e) => (index, acknowledged, Some(CreditError::Packet(e))),
            Ok(_) => if !acknowledged {
                if ok {
                    (index, true, None)
                } else {
                    (index, false, Some(CreditError::AcknowledgementRejected))
                }
            } else {
                if ok {
                    (index + 1, false, None)
                } else {
                    (index, true, Some(CreditError::MintFailed))
                }
            },
        }
    }
}

/// Credits the packets that the chain sent to the solo machine.
pub struct PacketCrediting {
    port_id: String,
    solo_machine_channel_id: String,
    tendermint_channel_id: String,
    packets: Vec<Packet>,
    index: usize,
    acknowledged: bool,
    error: Option<CreditError>,
}

impl PacketCrediting {
    pub closed spec fn route(self) -> Route {
        Route {
            port_id: self.port_id@,
            solo_machine_channel_id: self.solo_machine_channel_id@,
            tendermint_channel_id: self.tendermint_channel_id@,
        }
    }

    pub closed spec fn packets(self) -> Seq<PacketView> {
        self.packets@.map_values(|p: Packet| p@)
    }

    pub closed spec fn state(self) -> CreditState {
        (self.index as nat, self.acknowledged, self.error)
    }

    /// The packet at hand is one of the packets, or crediting is past them.
    pub closed spec fn wf(self) -> bool {
        self.index <= self.packets@.len()
    }

    /// Crediting `packets`, received over the channel between
    /// `tendermint_channel_id` and `solo_machine_channel_id` on `port_id`,
    /// from the first packet on.
    pub fn new(
        port_id: String,
        solo_machine_channel_id: String,
        tendermint_channel_id: String,
        packets: Vec<Packet>,
    ) -> (r: PacketCrediting)
        ensures
            r.wf(),
            r.route() == (Route {
                port_id: port_id@,
                solo_machine_channel_id: solo_machine_channel_id@,
                tendermint_channel_id: tendermint_channel_id@,
            }),
            r.packets() == packets@.map_values(|p: Packet| p@),
            r.state() == (0nat, false, None::<CreditError>),
    {
        PacketCrediting {
            port_id,
            solo_machine_channel_id,
            tendermint_channel_id,
            packets,
            index: 0,
            acknowledged: false,
            error: None,
        }
    }

    /// The action due now.
    pub fn next_action(&self) -> (a: CreditAction)
        requires
            self.wf(),
        ensures
            credit_action_view(a) == spec_credit_action(self.route(), self.packets(), self.state()),
    {
        if let Some(e) = self.error {
            return CreditAction::Stopped { error: e };
        }
        if self.index >= self.packets.len() {
            return CreditAction::Done;
        }
        let ghost p = self.packets@[self.index as int]@;
        assert(self.packets()[self.index as int] == p);
        match packet_mint_order(
            self.port_id.as_str(),
            self.solo_machine_channel_id.as_str(),
            self.tendermint_channel_id.as_str(),
            &self.packets[self.index],
        ) {
            Err(e) => CreditAction::Stopped { error: CreditError::Packet(e) },
            Ok(order) => if self.acknowledged {
                CreditAction::Mint { index: self.index, order }
            } else {
                CreditAction::Acknowledge { index: self.index }
            },
        }
    }

    /// Takes in whether the due action succeeded.
    pub fn on_outcome(&mut self, ok: bool)
        requires
            old(self).wf(),
        ensures
            final(self).wf(),
            final(self).route() == old(self).route(),
            final(self).packets() == old(self).packets(),
            final(self).state() == spec_credit_step(
                old(self).route(),
                old(self).packets(),
                old(self).state(),
                ok,
            ),
    {
        if self.error.is_some() || self.index >= self.packets.len() {
            return;
        }
        let ghost p = self.packets@[self.index as int]@;
        assert(self.packets()[self.index as int] == p);
        let order = packet_mint_order(
            self.port_id.as_str(),
            self.solo_machine_channel_id.as_str(),
            self.tendermint_channel_id.as_str(),
            &self.packets[self.index],
        );
        match order {
            Err(e) => {
                self.error = Some(CreditError::Packet(e));
            },
            Ok(_) => {
                if !self.acknowledged {
                    if ok {
                        self.acknowledged = true;
                    } else {
                        self.error = Some(CreditError::AcknowledgementRejected);
                    }
                } else {
                    if ok {
                        self.index = self.index + 1;
                        self.acknowledged = false;
                    } else {
                        self.error = Some(CreditError::MintFailed);
                    }
                }
            },
        }
    }
}

/// A mint is due for a packet only right after the chain accepted that
/// packet's acknowledgement: every step into a state where the mint of
/// packet `i` is due starts from the acknowledgement of packet `i` being
/// due, with a success.
pub proof fn lemma_mint_only_after_acknowledgement(
    route: Route,
    packets: Seq<PacketView>,
    s: CreditState,
    ok: bool,
)
    requires
        spec_credit_action(route, packets, spec_credit_step(route, packets, s, ok)) is Mint,
        spec_credit_action(route, packets, s) !is Mint,
    ensures
        spec_credit_action(route, packets, s) == (CreditActionView::Acknowledge { index: s.0 }),
        ok,
        spec_credit_step(route, packets, s, ok).0 == s.0,
{
}

/// Packets are credited one at a time, in order: crediting moves to the
/// next packet only when the mint of the packet at hand succeeded.
pub proof fn lemma_next_packet_only_after_mint(
    route: Route,
    packets: Seq<PacketView>,
    s: CreditState,
    ok: bool,
)
    requires
        spec_credit_step(route, packets, s, ok).0 != s.0,
    ensures
        spec_credit_step(route, packets, s, ok).0 == s.0 + 1,
        spec_credit_action(route, packets, s) is Mint,
        ok,
{
}

/// Once crediting stopped, it stays stopped with the same error.
pub proof fn lemma_stopped_is_final(route: Route, packets: Seq<PacketView>, s: CreditState, ok: bool)
    requires
        s.2 is Some,
    ensures
        spec_credit_step(route, packets, s, ok) == s,
{
}

} // verus!
