//! The two session state machines.
//!
//! Each machine is a pure sequencer. A state names the one operation that is
//! outstanding; the driver performs it and reports the outcome as an event;
//! the machine routes success to the next state and anything else to the
//! nearest terminal failure. Nothing is retried here.

pub mod receiver_fsm;
pub mod sender_fsm;

use crate::bluetooth::discovery::{DeviceInfo, PeerView};
use crate::crypto::{credentials_for, NetworkCredentials, SharedSecret};
use crate::fsm::receiver_fsm::{receiver_next, ReceiverEventView, ReceiverState, ReceiverStateView};
use crate::fsm::sender_fsm::{sender_next, SenderEventView, SenderState, SenderStateView};
use crate::tunnel::transfer::Role;
use vstd::prelude::*;

verus! {

/// The one unit of work of a process: a sending or a receiving session and
/// the state it is in. What a session knows of its peer, its secret and its
/// credentials is what its state carries.
#[derive(Debug)]
pub enum Session {
    Sending(SenderState),
    Receiving(ReceiverState),
}

impl Session {
    /// A session that is about to send.
    pub fn sender() -> (session: Session)
        ensures
            session matches Session::Sending(state) && state@ == SenderStateView::Scanning,
    {
        Session::Sending(SenderState::start())
    }

    /// A session that is about to receive.
    pub fn receiver() -> (session: Session)
        ensures
            session matches Session::Receiving(state) && state@ == ReceiverStateView::Listening,
    {
        Session::Receiving(ReceiverState::start())
    }

    /// Which end of the transfer this session is.
    pub fn role(&self) -> (role: Role)
        ensures
            role == (if *self is Sending {
                Role::Sender
            } else {
                Role::Receiver
            }),
    {
        match self {
            Session::Sending(_) => Role::Sender,
            Session::Receiving(_) => Role::Receiver,
        }
    }

    /// The remote device, from the moment it is chosen until the transfer
    /// starts. A receiving session never learns who its peer is.
    pub fn peer(&self) -> (peer: Option<&DeviceInfo>)
        ensures
            match *self {
                Session::Sending(SenderState::Connecting(p)) => peer == Some(&p),
                Session::Sending(SenderState::ExchangingKey(p, _)) => peer == Some(&p),
                Session::Sending(SenderState::FormingNetwork(p, _)) => peer == Some(&p),
                Session::Sending(SenderState::AwaitingPeerJoin(p)) => peer == Some(&p),
                _ => peer is None,
            },
    {
        match self {
            Session::Sending(SenderState::Connecting(p)) => Some(p),
            Session::Sending(SenderState::ExchangingKey(p, _)) => Some(p),
            Session::Sending(SenderState::FormingNetwork(p, _)) => Some(p),
            Session::Sending(SenderState::AwaitingPeerJoin(p)) => Some(p),
            _ => None,
        }
    }

    /// The secret, while the sender offers it and while the receiver holds
    /// it to derive the credentials.
    pub fn secret(&self) -> (secret: Option<&SharedSecret>)
        ensures
            match *self {
                Session::Sending(SenderState::ExchangingKey(_, s)) => secret == Some(&s),
                Session::Receiving(ReceiverState::DerivingCredentials(s)) => secret == Some(&s),
                _ => secret is None,
            },
    {
        match self {
            Session::Sending(SenderState::ExchangingKey(_, s)) => Some(s),
            Session::Receiving(ReceiverState::DerivingCredentials(s)) => Some(s),
            _ => None,
        }
    }

    /// The credentials, while the network is being formed or joined.
    pub fn credentials(&self) -> (credentials: Option<&NetworkCredentials>)
        ensures
            match *self {
                Session::Sending(SenderState::FormingNetwork(_, c)) => credentials == Some(&c),
                Session::Receiving(ReceiverState::JoiningNetwork(c)) => credentials == Some(&c),
                _ => credentials is None,
            },
    {
        match self {
            Session::Sending(SenderState::FormingNetwork(_, c)) => Some(c),
            Session::Receiving(ReceiverState::JoiningNetwork(c)) => Some(c),
            _ => None,
        }
    }

    /// Whether the session has ended.
    pub fn is_terminal(&self) -> (terminal: bool)
        ensures
            terminal == match *self {
                Session::Sending(state) => crate::fsm::sender_fsm::sender_terminal(state@),
                Session::Receiving(state) => crate::fsm::receiver_fsm::receiver_terminal(state@),
            },
    {
        match self {
            Session::Sending(state) => state.is_terminal(),
            Session::Receiving(state) => state.is_terminal(),
        }
    }

    /// The status with which the process exits: zero where the file went
    /// through, one otherwise.
    pub fn exit_code(&self) -> (code: i32)
        ensures
            code == (if (*self matches Session::Sending(state) && state@ is SendSuccess) || (
            *self matches Session::Receiving(state) && state@ is ReceiveSuccess) {
                0i32
            } else {
                1i32
            }),
    {
        match self {
            Session::Sending(state) => state.exit_code(),
            Session::Receiving(state) => state.exit_code(),
        }
    }
}

/// Once the secret has changed hands, both sides arrive at the same
/// credentials without a further word: the sender from what it knows of the
/// receiver, the receiver from what it knows of itself. All it takes is
/// that the secret that was read is the one that was offered, and that the
/// receiver reports the name and address under which the sender found it.
pub proof fn peers_agree_on_credentials(peer: PeerView, secret: Seq<u8>, fresh: Seq<u8>)
    ensures
        sender_next(SenderStateView::ExchangingKey(peer, secret), SenderEventView::KeyPublished, fresh)
            == SenderStateView::FormingNetwork(peer, credentials_for(peer.name, secret, peer.address)),
        receiver_next(
            ReceiverStateView::DerivingCredentials(secret),
            ReceiverEventView::Identity(peer.name, Some(peer.address)),
        ) == ReceiverStateView::JoiningNetwork(credentials_for(peer.name, secret, peer.address)),
{
}

} // verus!
