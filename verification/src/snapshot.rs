//! What the voice server reports: the clients that are connected and the
//! channels they sit in.

use vstd::prelude::*;

verus! {

/// A client that is connected to the voice server.
#[derive(Debug, Clone, PartialEq, Eq)]
pub struct Client {
    /// The channel the client is in.
    pub cid: u64,
    pub nickname: String,
    /// Country code as the server gives it, if it gives one.
    pub country: Option<String>,
}

/// A [`Client`] as contracts see it.
pub struct ClientView {
    pub cid: u64,
    pub nickname: Seq<char>,
    pub country: Option<Seq<char>>,
}

impl View for Client {
    type V = ClientView;

    open spec fn view(&self) -> ClientView {
        ClientView {
            cid: self.cid,
            nickname: self.nickname@,
            country: match self.country {
                Some(code) => Some(code@),
                None => None,
            },
        }
    }
}

/// A channel of the voice server.
#[derive(Debug, Clone, PartialEq, Eq)]
pub struct Channel {
    pub cid: u64,
    pub name: String,
}

/// A [`Channel`] as contracts see it.
pub struct ChannelView {
    pub cid: u64,
    pub name: Seq<char>,
}

impl View for Channel {
    type V = ChannelView;

    open spec fn view(&self) -> ChannelView {
        ChannelView { cid: self.cid, name: self.name@ }
    }
}

/// The clients of a list, each as contracts see it, in the list's order.
pub open spec fn client_views(clients: Seq<Client>) -> Seq<ClientView> {
    clients.map_values(|c: Client| c@)
}

/// The channels of a list, each as contracts see it, in the list's order.
pub open spec fn channel_views(channels: Seq<Channel>) -> Seq<ChannelView> {
    channels.map_values(|c: Channel| c@)
}

} // verus!
