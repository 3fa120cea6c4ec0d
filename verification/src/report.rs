//! The report: who is online, channel by channel, drawn as a tree.

use vstd::prelude::*;

use crate::flag::{flag_of, render_flag};
use crate::snapshot::{channel_views, client_views, Channel, ChannelView, Client, ClientView};

verus! {

/// Name of the account that queries run under. Its own connection is
/// never shown.
pub const SERVICE_ACCOUNT: &'static str = "serveradmin";

/// First line of every report.
pub const HEADER: &'static str = "➖➖ TeamSpeak 3 ➖➖\n";

/// The whole report when no one is online.
pub const NOBODY_ONLINE: &'static str = "➖➖ TeamSpeak 3 ➖➖\n There's nobody online 😟";

/// Stands where a client has no flag.
pub const NO_FLAG: &'static str = "-";

/// What is shown of a client besides its nickname.
#[derive(Debug, Clone, Copy, PartialEq, Eq, Structural)]
pub enum Detail {
    /// The nickname alone.
    Plain,
    /// The nickname and the flag of the client's country.
    Country,
}

/// The glyph that ties a client's line to its channel.
#[derive(Debug, Clone, Copy, PartialEq, Eq, Structural)]
pub enum Connector {
    /// More clients of the channel follow.
    Continuing,
    /// The last client of the channel.
    Terminal,
}

impl Connector {
    pub open spec fn glyph_text(self) -> Seq<char> {
        match self {
            Connector::Continuing => "├"@,
            Connector::Terminal => "└"@,
        }
    }

    /// The connector of the client at place `i` among the `n` of a channel.
    pub open spec fn at(i: int, n: int) -> Connector {
        if i == n - 1 {
            Connector::Terminal
        } else {
            Connector::Continuing
        }
    }

    pub fn glyph(self) -> (glyph: &'static str)
        ensures
            glyph@ == self.glyph_text(),
    {
        match self {
            Connector::Continuing => "├",
            Connector::Terminal => "└",
        }
    }
}

/// Whether `client` is the connection of the service account.
pub open spec fn is_service_account(client: ClientView) -> bool {
    client.nickname == SERVICE_ACCOUNT@
}

/// The test that a client passes if a report shows it.
pub open spec fn is_shown() -> spec_fn(ClientView) -> bool {
    |c: ClientView| !is_service_account(c)
}

/// The test that a client passes if it sits in channel `cid`.
pub open spec fn sits_in(cid: u64) -> spec_fn(ClientView) -> bool {
    |c: ClientView| c.cid == cid
}

/// The clients that a report shows: all but the service account, in the
/// order of `clients`.
pub open spec fn visible(clients: Seq<ClientView>) -> Seq<ClientView> {
    clients.filter(is_shown())
}

/// The clients that sit in channel `cid`, in the order of `clients`.
pub open spec fn members(clients: Seq<ClientView>, cid: u64) -> Seq<ClientView> {
    clients.filter(sits_in(cid))
}

/// The flag of `country`, or a dash where there is none.
pub open spec fn country_mark(country: Option<Seq<char>>) -> Seq<char> {
    match country {
        Some(code) => match flag_of(code) {
            Some(flag) => flag,
            None => NO_FLAG@,
        },
        None => NO_FLAG@,
    }
}

/// What follows the nickname on a client's line.
pub open spec fn decoration(client: ClientView, detail: Detail) -> Seq<char> {
    match detail {
        Detail::Plain => Seq::empty(),
        Detail::Country => " "@ + country_mark(client.country),
    }
}

/// The line of one client. It opens with the line break that ends the
/// line above it, so that a channel's part ends without one.
pub open spec fn client_line(client: ClientView, connector: Connector, detail: Detail) -> Seq<
    char,
> {
    "\n "@ + connector.glyph_text() + " 🔵 "@ + client.nickname + decoration(client, detail)
}

/// The lines of the clients of one channel, in order. The last one has
/// the terminal connector, the others the continuing one.
pub open spec fn group_lines(group: Seq<ClientView>, detail: Detail) -> Seq<Seq<char>> {
    Seq::new(
        group.len(),
        |i: int| client_line(group[i], Connector::at(i, group.len() as int), detail),
    )
}

/// The part of the report for one channel with the clients `group` in
/// it: the line with its name, then their lines.
pub open spec fn channel_block(channel: ChannelView, group: Seq<ClientView>, detail: Detail) -> Seq<
    char,
> {
    "💬 "@ + channel.name + group_lines(group, detail).flatten()
}

/// The test that a channel passes if one of the clients `shown` sits in
/// it.
pub open spec fn is_occupied(shown: Seq<ClientView>) -> spec_fn(ChannelView) -> bool {
    |channel: ChannelView| members(shown, channel.cid).len() > 0
}

/// The channels that a report shows: those with one of the clients
/// `shown` in them, in the order of `channels`.
pub open spec fn occupied(channels: Seq<ChannelView>, shown: Seq<ClientView>) -> Seq<ChannelView> {
    channels.filter(is_occupied(shown))
}

/// The parts of the report, one for each channel that is shown and in
/// their order, where `shown` are the clients to show.
pub open spec fn channel_blocks(
    channels: Seq<ChannelView>,
    shown: Seq<ClientView>,
    detail: Detail,
) -> Seq<Seq<char>> {
    occupied(channels, shown).map_values(
        |channel: ChannelView| channel_block(channel, members(shown, channel.cid), detail),
    )
}

/// The texts `parts` one below the other: between each two of them
/// stands one line break, and none stands before the first or after the
/// last.
pub open spec fn stacked(parts: Seq<Seq<char>>) -> Seq<char>
    decreases parts.len(),
{
    if parts.len() == 0 {
        Seq::empty()
    } else if parts.len() == 1 {
        parts[0]
    } else {
        stacked(parts.drop_last()) + "\n"@ + parts.last()
    }
}

/// The report for the given clients and channels.
pub open spec fn report_text(
    clients: Seq<ClientView>,
    channels: Seq<ChannelView>,
    detail: Detail,
) -> Seq<char> {
    let shown = visible(clients);
    if shown.len() == 0 {
        NOBODY_ONLINE@
    } else {
        HEADER@ + stacked(channel_blocks(channels, shown, detail))
    }
}

/// Borrowed clients, each as contracts see it, in the list's order.
pub open spec fn borrowed_views(clients: Seq<&Client>) -> Seq<ClientView> {
    clients.map_values(|c: &Client| c@)
}

/// Picks the clients that a report shows.
fn visible_clients(clients: &Vec<Client>) -> (shown: Vec<&Client>)
    ensures
        borrowed_views(shown@) == visible(client_views(clients@)),
{
    let service = String::from_str(SERVICE_ACCOUNT);
    let mut shown: Vec<&Client> = Vec::new();
    let ghost all = client_views(clients@);
    proof {
        reveal(Seq::filter);
        assert(borrowed_views(shown@) =~= visible(all.take(0)));
    }
    let mut i: usize = 0;
    while i < clients.len()
        invariant
            i <= clients.len(),
            all == client_views(clients@),
            service@ == SERVICE_ACCOUNT@,
            borrowed_views(shown@) == visible(all.take(i as int)),
        decreases clients.len() - i,
    {
        let client = &clients[i];
        let ghost before = shown@;
        proof {
            assert(all.take(i + 1) =~= all.take(i as int).push(client@));
            all.take(i as int).lemma_filter_push(client@, is_shown());
        }
        if !(client.nickname == service) {
            shown.push(client);
            proof {
                assert(borrowed_views(shown@) =~= borrowed_views(before).push(client@));
            }
        }
        i += 1;
    }
    proof {
        assert(all.take(clients.len() as int) =~= all);
    }
    shown
}

/// Picks, among the clients to show, those that sit in channel `cid`.
fn channel_members<'a>(shown: &Vec<&'a Client>, cid: u64) -> (group: Vec<&'a Client>)
    ensures
        borrowed_views(group@) == members(borrowed_views(shown@), cid),
{
    let mut group: Vec<&Client> = Vec::new();
    let ghost all = borrowed_views(shown@);
    proof {
        reveal(Seq::filter);
        assert(borrowed_views(group@) =~= members(all.take(0), cid));
    }
    let mut i: usize = 0;
    while i < shown.len()
        invariant
            i <= shown.len(),
            all == borrowed_views(shown@),
            borrowed_views(group@) == members(all.take(i as int), cid),
        decreases shown.len() - i,
    {
        let client = shown[i];
        let ghost before = group@;
        proof {
            assert(all.take(i + 1) =~= all.take(i as int).push(client@));
            all.take(i as int).lemma_filter_push(client@, sits_in(cid));
        }
        if client.cid == cid {
            group.push(client);
            proof {
                assert(borrowed_views(group@) =~= borrowed_views(before).push(client@));
            }
        }
        i += 1;
    }
    proof {
        assert(all.take(shown.len() as int) =~= all);
    }
    group
}

/// The flag of a client's country as text, or a dash.
fn mark_country(country: &Option<String>) -> (mark: String)
    ensures
        mark@ == country_mark(
            match *country {
                Some(code) => Some(code@),
                None => None,
            },
        ),
{
    match country {
        Some(code) => match render_flag(code.as_str()) {
            Some(flag) => flag,
            None => String::from_str(NO_FLAG),
        },
        None => String::from_str(NO_FLAG),
    }
}

/// Appends the line of one client to the report.
fn write_client_line(report: &mut String, client: &Client, connector: Connector, detail: Detail)
    ensures
        final(report)@ == old(report)@ + client_line(client@, connector, detail),
{
    report.append("\n ");
    report.append(connector.glyph());
    report.append(" 🔵 ");
    report.append(client.nickname.as_str());
    match detail {
        Detail::Plain => {},
        Detail::Country => {
            let mark = mark_country(&client.country);
            report.append(" ");
            report.append(mark.as_str());
        },
    }
    proof {
        assert(final(report)@ =~= old(report)@ + client_line(client@, connector, detail));
    }
}

/// Appends the part of the report for `channel`, whose clients are
/// `group`.
fn write_channel(report: &mut String, channel: &Channel, group: &Vec<&Client>, detail: Detail)
    ensures
        final(report)@ == old(report)@ + channel_block(
            channel@,
            borrowed_views(group@),
            detail,
        ),
{
    let count = group.len();
    report.append("💬 ");
    report.append(channel.name.as_str());
    let ghost lines = group_lines(borrowed_views(group@), detail);
    let ghost start = report@;
    let mut i: usize = 0;
    while i < count
        invariant
            i <= count,
            count == group.len(),
            lines == group_lines(borrowed_views(group@), detail),
            report@ == start + lines.take(i as int).flatten(),
        decreases count - i,
    {
        let connector = if i + 1 == count {
            Connector::Terminal
        } else {
            Connector::Continuing
        };
        proof {
            assert(lines.take(i + 1) =~= lines.take(i as int).push(lines[i as int]));
            lines.take(i as int).lemma_flatten_push(lines[i as int]);
        }
        write_client_line(report, group[i], connector, detail);
        i += 1;
    }
    proof {
        assert(lines.take(count as int) =~= lines);
        assert(final(report)@ =~= old(report)@ + channel_block(
            channel@,
            borrowed_views(group@),
            detail,
        ));
    }
}

/// Builds the report with the chosen detail.
///
/// The service account is left out. If no one else is online the report
/// is the fixed text [`NOBODY_ONLINE`], whatever the channels. Else it is
/// the header, then each channel that has a client to show, in the order
/// given: its name on a line of its own, then its clients, in the order
/// given, one line each. The last line has no line break after it.
pub fn render_report(clients: &Vec<Client>, channels: &Vec<Channel>, detail: Detail) -> (report:
    String)
    ensures
        report@ == report_text(client_views(clients@), channel_views(channels@), detail),
        visible(client_views(clients@)).len() == 0 ==> report@ == NOBODY_ONLINE@,
{
    let shown = visible_clients(clients);
    if shown.len() == 0 {
        return String::from_str(NOBODY_ONLINE);
    }
    let mut report = String::from_str(HEADER);
    let ghost all = channel_views(channels@);
    let ghost seen = borrowed_views(shown@);
    proof {
        reveal(Seq::filter);
        assert(channel_blocks(all.take(0), seen, detail) =~= Seq::empty());
        assert(report@ =~= HEADER@ + stacked(channel_blocks(all.take(0), seen, detail)));
    }
    let mut written = false;
    let mut i: usize = 0;
    while i < channels.len()
        invariant
            i <= channels.len(),
            all == channel_views(channels@),
            seen == borrowed_views(shown@),
            written == (occupied(all.take(i as int), seen).len() > 0),
            report@ == HEADER@ + stacked(channel_blocks(all.take(i as int), seen, detail)),
        decreases channels.len() - i,
    {
        let channel = &channels[i];
        let group = channel_members(&shown, channel.cid);
        proof {
            assert(all.take(i + 1) =~= all.take(i as int).push(channel@));
            all.take(i as int).lemma_filter_push(channel@, is_occupied(seen));
        }
        if group.len() > 0 {
            if written {
                report.append("\n");
            }
            write_channel(&mut report, channel, &group, detail);
            written = true;
            proof {
                let before = channel_blocks(all.take(i as int), seen, detail);
                let block = channel_block(channel@, members(seen, channel.cid), detail);
                assert(channel_blocks(all.take(i + 1), seen, detail) =~= before.push(block));
                assert(before.push(block).drop_last() =~= before);
                assert(report@ =~= HEADER@ + stacked(before.push(block)));
            }
        }
        i += 1;
    }
    proof {
        assert(all.take(channels.len() as int) =~= all);
    }
    report
}

/// Builds the report, with the flag of each client's country.
pub fn build_report(clients: &Vec<Client>, channels: &Vec<Channel>) -> (report: String)
    ensures
        report@ == report_text(client_views(clients@), channel_views(channels@), Detail::Country),
        visible(client_views(clients@)).len() == 0 ==> report@ == NOBODY_ONLINE@,
{
    render_report(clients, channels, Detail::Country)
}

/// The connector that a client's line shows: what stands in it after the
/// line break and the space that open it.
pub open spec fn connector_shown(line: Seq<char>) -> Seq<char> {
    line.subrange(2, 3)
}

/// The service account is never shown. Nothing that `visible` keeps is
/// the service account, and a list of clients with the service account
/// put in at any place gives the same report as the list without it.
pub proof fn service_account_is_left_out(
    clients: Seq<ClientView>,
    channels: Seq<ChannelView>,
    detail: Detail,
    place: int,
    service: ClientView,
)
    requires
        0 <= place <= clients.len(),
        is_service_account(service),
    ensures
        forall|i: int|
            0 <= i < visible(clients).len() ==> !is_service_account(#[trigger] visible(clients)[i]),
        visible(clients.insert(place, service)) == visible(clients),
        report_text(clients.insert(place, service), channels, detail) == report_text(
            clients,
            channels,
            detail,
        ),
{
    assert forall|i: int| 0 <= i < visible(clients).len() implies !is_service_account(
        #[trigger] visible(clients)[i],
    ) by {
        clients.lemma_filter_pred(is_shown(), i);
    }
    let head = clients.subrange(0, place);
    let tail = clients.subrange(place, clients.len() as int);
    head.lemma_filter_push(service, is_shown());
    Seq::filter_distributes_over_add(head.push(service), tail, is_shown());
    Seq::filter_distributes_over_add(head, tail, is_shown());
    assert(head + tail =~= clients);
}

/// With no client to show, the report is the fixed text
/// [`NOBODY_ONLINE`], whatever the channels and the detail. That is so
/// where every client is the service account, and where there is none.
pub proof fn nobody_online_is_fixed(
    clients: Seq<ClientView>,
    channels: Seq<ChannelView>,
    detail: Detail,
)
    requires
        forall|i: int| 0 <= i < clients.len() ==> is_service_account(#[trigger] clients[i]),
    ensures
        visible(clients).len() == 0,
        report_text(clients, channels, detail) == NOBODY_ONLINE@,
{
    assert(clients.all(|c: ClientView| !is_shown()(c)));
    clients.lemma_all_neg_filter_empty(is_shown());
}

/// In a channel with clients, exactly one line has the terminal
/// connector, and it is the line of the last client. All lines before it
/// have the continuing connector. The lines keep the clients' order.
pub proof fn last_line_has_terminal_connector(group: Seq<ClientView>, detail: Detail)
    requires
        group.len() > 0,
    ensures
        group_lines(group, detail).len() == group.len(),
        forall|i: int|
            0 <= i < group.len() ==> #[trigger] group_lines(group, detail)[i] == client_line(
                group[i],
                Connector::at(i, group.len() as int),
                detail,
            ),
        forall|i: int|
            0 <= i < group.len() ==> (connector_shown(#[trigger] group_lines(group, detail)[i])
                == Connector::Terminal.glyph_text() <==> i == group.len() - 1),
        forall|i: int|
            0 <= i < group.len() - 1 ==> connector_shown(#[trigger] group_lines(group, detail)[i])
                == Connector::Continuing.glyph_text(),
        Connector::Terminal.glyph_text() != Connector::Continuing.glyph_text(),
{
    reveal_strlit("\n ");
    reveal_strlit("├");
    reveal_strlit("└");
    assert(Connector::Terminal.glyph_text()[0] != Connector::Continuing.glyph_text()[0]);
    assert forall|i: int| 0 <= i < group.len() implies connector_shown(
        #[trigger] group_lines(group, detail)[i],
    ) == Connector::at(i, group.len() as int).glyph_text() by {
        let connector = Connector::at(i, group.len() as int);
        let line = client_line(group[i], connector, detail);
        assert(connector_shown(line) =~= connector.glyph_text());
    }
}

/// A channel without a client to show adds nothing to the report,
/// neither its name nor a line break: a list of channels with such a
/// channel put in at any place gives the same report as the list without
/// it.
pub proof fn empty_channel_is_left_out(
    clients: Seq<ClientView>,
    channels: Seq<ChannelView>,
    detail: Detail,
    place: int,
    channel: ChannelView,
)
    requires
        0 <= place <= channels.len(),
        members(visible(clients), channel.cid).len() == 0,
    ensures
        occupied(channels.insert(place, channel), visible(clients)) == occupied(
            channels,
            visible(clients),
        ),
        report_text(clients, channels.insert(place, channel), detail) == report_text(
            clients,
            channels,
            detail,
        ),
{
    let test = is_occupied(visible(clients));
    let head = channels.subrange(0, place);
    let tail = channels.subrange(place, channels.len() as int);
    head.lemma_filter_push(channel, test);
    Seq::filter_distributes_over_add(head.push(channel), tail, test);
    Seq::filter_distributes_over_add(head, tail, test);
    assert(head + tail =~= channels);
}

/// Every channel that is shown starts on a line of its own. The first
/// one follows the header, which ends in a line break. Each later one
/// follows the report so far and one line break. The channels keep their
/// order.
pub proof fn each_channel_starts_a_line(
    clients: Seq<ClientView>,
    channels: Seq<ChannelView>,
    detail: Detail,
    channel: ChannelView,
)
    requires
        members(visible(clients), channel.cid).len() > 0,
    ensures
        occupied(channels.push(channel), visible(clients)) == occupied(
            channels,
            visible(clients),
        ).push(channel),
        report_text(clients, channels.push(channel), detail) == if occupied(
            channels,
            visible(clients),
        ).len() == 0 {
            HEADER@ + channel_block(channel, members(visible(clients), channel.cid), detail)
        } else {
            report_text(clients, channels, detail) + "\n"@ + channel_block(
                channel,
                members(visible(clients), channel.cid),
                detail,
            )
        },
{
    let shown = visible(clients);
    let before = channel_blocks(channels, shown, detail);
    let block = channel_block(channel, members(shown, channel.cid), detail);
    channels.lemma_filter_push(channel, is_occupied(shown));
    assert(channel_blocks(channels.push(channel), shown, detail) =~= before.push(block));
    assert(before.push(block).drop_last() =~= before);
    assert(report_text(clients, channels.push(channel), detail) =~= if before.len() == 0 {
        HEADER@ + block
    } else {
        report_text(clients, channels, detail) + "\n"@ + block
    });
}

} // verus!
