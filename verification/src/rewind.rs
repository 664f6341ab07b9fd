//! The `rewind` command: reading message links, choosing the messages to
//! delete, and the archive and answer it leaves behind.

use vstd::prelude::*;
use crate::embed::{Embed, rgb};
use crate::error::BotError;
use crate::templates::status::{status_view, success};
use crate::text::{concat, decimal, parse_u64, parse_u64_spec, split, split_on, str_eq, u64_to_decimal,
    lemma_parse_decimal, lemma_split_append, lemma_split_two_pieces, lemma_decimal_digits};

verus! {

/// The last two `/`-separated parts of a message link, read as channel id
/// and message id.
pub open spec fn link_ids(url: Seq<char>) -> Option<(u64, u64)> {
    let parts = split_on(url, '/');
    match (parse_u64_spec(parts[parts.len() - 2]), parse_u64_spec(parts[parts.len() - 1])) {
        (Some(c), Some(m)) => Some((c, m)),
        _ => None,
    }
}

/// Reads the channel id and the message id at the end of a message link
/// (`.../<channel>/<message>`); `MalformedInput` when either is not a
/// number. The link must hold a `/`.
pub fn id_split(url: &str) -> (res: Result<[u64; 2], BotError>)
    requires
        url@.contains('/'),
    ensures
        link_ids(url@) matches Some((c, m)) ==> res == Ok::<[u64; 2], BotError>([c, m]),
        link_ids(url@) is None ==> (res matches Err(BotError::MalformedInput(s)) && s@ == url@),
{
    let id_vec = split(url, '/');
    proof {
        lemma_split_two_pieces(url@, '/');
    }
    let n = id_vec.len();
    let chstr = &id_vec[n - 2];
    let msgstr = &id_vec[n - 1];
    assert(chstr@ == split_on(url@, '/')[n - 2]);
    assert(msgstr@ == split_on(url@, '/')[n - 1]);
    let channel_result = match parse_u64(chstr.as_str()) {
        Some(v) => v,
        None => {
            return Err(BotError::MalformedInput(String::from_str(url)));
        },
    };
    let message_result = match parse_u64(msgstr.as_str()) {
        Some(v) => v,
        None => {
            return Err(BotError::MalformedInput(String::from_str(url)));
        },
    };
    let res = [channel_result, message_result];
    assert(res@ =~= seq![channel_result, message_result]);
    Ok(res)
}

/// A decimal representation holds no `/`.
proof fn lemma_decimal_no_slash(n: u64)
    ensures
        !decimal(n as nat).contains('/'),
{
    lemma_decimal_digits(n as nat);
    assert forall|k: int| 0 <= k < decimal(n as nat).len() implies decimal(n as nat)[k] != '/' by {
        assert(crate::text::is_digit(decimal(n as nat)[k]));
    }
}

/// Law of message links: a link ending in `/<channel>/<message>` reads back
/// as that channel id and message id, whatever comes before.
pub proof fn lemma_link_roundtrip(prefix: Seq<char>, channel: u64, message: u64)
    ensures
        link_ids(prefix + seq!['/'] + decimal(channel as nat) + seq!['/'] + decimal(message as nat)) == Some(
            (channel, message),
        ),
{
    let c = decimal(channel as nat);
    let m = decimal(message as nat);
    lemma_decimal_no_slash(channel);
    lemma_decimal_no_slash(message);
    lemma_split_append(prefix, '/', c);
    lemma_split_append(prefix + seq!['/'] + c, '/', m);
    lemma_parse_decimal(channel);
    lemma_parse_decimal(message);
    let parts = split_on(prefix + seq!['/'] + c + seq!['/'] + m, '/');
    assert(parts == split_on(prefix, '/').push(c).push(m));
    assert(parts[parts.len() - 2] == c);
    assert(parts[parts.len() - 1] == m);
}

/// Whether the confirmation modal was answered with the message id of the
/// "from" link.
pub fn confirmed(answer: Option<&str>, from_id: u64) -> (res: bool)
    ensures
        res == (answer matches Some(a) && a@ == decimal(from_id as nat)),
{
    match answer {
        Some(a) => {
            let expected = u64_to_decimal(from_id);
            str_eq(a, expected.as_str())
        },
        None => false,
    }
}

/// Both links of a rewind must point into the same channel.
pub fn check_same_channel(from_channel: u64, until_channel: u64) -> (res: Result<(), BotError>)
    ensures
        from_channel == until_channel ==> res is Ok,
        from_channel != until_channel ==> res matches Err(BotError::InputChannelMismatch),
{
    if from_channel != until_channel {
        return Err(BotError::InputChannelMismatch);
    }
    Ok(())
}

/// The first position of `id` in `ids`.
pub open spec fn first_position(ids: Seq<u64>, id: u64) -> int {
    choose|k: int| 0 <= k < ids.len() && ids[k] == id && forall|j: int| 0 <= j < k ==> ids[j] != id
}

/// Where the messages to delete start: at the first message with the
/// "until" id when one was given, otherwise at the first message;
/// `InvalidInput("until")` when no message has that id.
pub fn range_start(ids: &Vec<u64>, until: Option<u64>) -> (res: Result<usize, BotError>)
    ensures
        until is None ==> res == Ok::<usize, BotError>(0),
        until matches Some(u) ==> (ids@.contains(u) ==> (res matches Ok(p) && p as int == first_position(
            ids@,
            u,
        ))),
        until matches Some(u) ==> (!ids@.contains(u) ==> (res matches Err(BotError::InvalidInput(s)) && s@
            == "until"@)),
{
    match until {
        None => Ok(0),
        Some(u) => {
            let mut i: usize = 0;
            while i < ids.len()
                invariant
                    until == Some(u),
                    i <= ids@.len(),
                    forall|j: int| 0 <= j < i ==> ids@[j] != u,
                decreases ids@.len() - i,
            {
                if ids[i] == u {
                    assert(first_position(ids@, u) == i as int) by {
                        let f = first_position(ids@, u);
                        assert(0 <= f < ids@.len() && ids@[f] == u && forall|j: int|
                            0 <= j < f ==> ids@[j] != u);
                        if f > i {
                            assert(ids@[i as int] == u);
                        }
                    }
                    return Ok(i);
                }
                i = i + 1;
            }
            Err(BotError::InvalidInput(String::from_str("until")))
        },
    }
}

/// An id that occurs has a first position, holding it, before which it
/// does not occur.
proof fn lemma_first_position(ids: Seq<u64>, u: u64)
    requires
        ids.contains(u),
    ensures
        0 <= first_position(ids, u) < ids.len(),
        ids[first_position(ids, u)] == u,
        forall|j: int| 0 <= j < first_position(ids, u) ==> ids[j] != u,
{
    let w = first_witness(ids, u);
    assert(0 <= w < ids.len() && ids[w] == u && forall|j: int| 0 <= j < w ==> ids[j] != u);
}

proof fn first_witness(ids: Seq<u64>, u: u64) -> (w: int)
    requires
        ids.contains(u),
    ensures
        0 <= w < ids.len(),
        ids[w] == u,
        forall|j: int| 0 <= j < w ==> ids[j] != u,
    decreases ids.len(),
{
    let prefix = ids.drop_last();
    if prefix.contains(u) {
        let w = first_witness(prefix, u);
        assert forall|j: int| 0 <= j < w implies ids[j] != u by {
            assert(ids[j] == prefix[j]);
        }
        assert(ids[w] == prefix[w]);
        w
    } else {
        let k = choose|k: int| 0 <= k < ids.len() && ids[k] == u;
        if k < ids.len() - 1 {
            assert(prefix[k] == u);
        }
        assert forall|j: int| 0 <= j < ids.len() - 1 implies ids[j] != u by {
            assert(ids[j] == prefix[j]);
        }
        ids.len() - 1
    }
}

/// The messages to delete, by id, from the fetched messages (newest first,
/// the "from" message last): all of them, or those from the first message
/// with the "until" id on; `InvalidInput("until")` when no message has that
/// id.
pub fn select_range(ids: &Vec<u64>, until: Option<u64>) -> (res: Result<Vec<u64>, BotError>)
    ensures
        until is None ==> (res matches Ok(v) && v@ == ids@),
        until matches Some(u) ==> (ids@.contains(u) ==> (res matches Ok(v) && v@ == ids@.skip(
            first_position(ids@, u),
        ))),
        until matches Some(u) ==> (!ids@.contains(u) ==> (res matches Err(BotError::InvalidInput(s)) && s@
            == "until"@)),
{
    let start = range_start(ids, until)?;
    let mut kept: Vec<u64> = Vec::new();
    let mut i: usize = start;
    proof {
        if let Some(u) = until {
            if ids@.contains(u) {
                lemma_first_position(ids@, u);
            }
        }
    }
    while i < ids.len()
        invariant
            start <= i <= ids@.len(),
            kept@ =~= ids@.subrange(start as int, i as int),
        decreases ids@.len() - i,
    {
        kept.push(ids[i]);
        i = i + 1;
    }
    assert(kept@ =~= ids@.skip(start as int));
    Ok(kept)
}

/// Whether the ids are strictly decreasing: newest first, as Discord lists
/// messages.
pub open spec fn newest_first(ids: Seq<u64>) -> bool {
    forall|a: int, b: int| 0 <= a < b < ids.len() ==> ids[a] > ids[b]
}

/// Law of rewind: when the fetched messages run newest first down to the
/// "from" message, the messages deleted up to the "until" message are
/// exactly the fetched ones whose ids lie between the two, both included.
pub proof fn lemma_range_is_interval(ids: Seq<u64>, until: u64)
    requires
        newest_first(ids),
        ids.contains(until),
    ensures
        forall|m: u64|
            ids.skip(first_position(ids, until)).contains(m) <==> (ids.contains(m) && ids.last() <= m && m
                <= until),
{
    lemma_first_position(ids, until);
    let p = first_position(ids, until);
    let kept = ids.skip(p);
    assert forall|m: u64| kept.contains(m) <==> (ids.contains(m) && ids.last() <= m && m <= until) by {
        if kept.contains(m) {
            let j = choose|j: int| 0 <= j < kept.len() && kept[j] == m;
            assert(ids[p + j] == m);
            if p + j < ids.len() - 1 {
                assert(ids[p + j] > ids[ids.len() - 1]);
            }
            if j > 0 {
                assert(ids[p] > ids[p + j]);
            }
        }
        if ids.contains(m) && ids.last() <= m && m <= until {
            let j = choose|j: int| 0 <= j < ids.len() && ids[j] == m;
            if j < p {
                assert(ids[j] > ids[p]);
            }
            assert(kept[j - p] == m);
        }
    }
}

/// What to do after a page of messages was fetched.
pub enum PageStep {
    /// Fetch the messages after this id: the newest of the page.
    FetchAfter(u64),
    /// Every message after the first one has been fetched.
    Done,
}

/// The largest id of a non-empty list.
pub open spec fn newest_id(ids: Seq<u64>) -> u64
    decreases ids.len(),
{
    if ids.len() <= 1 {
        ids[0]
    } else {
        let rest = newest_id(ids.drop_last());
        if ids.last() > rest {
            ids.last()
        } else {
            rest
        }
    }
}

/// The newest id of a page is one of its ids, and no id of it is newer.
pub proof fn lemma_newest_id(ids: Seq<u64>)
    requires
        ids.len() > 0,
    ensures
        ids.contains(newest_id(ids)),
        forall|k: int| 0 <= k < ids.len() ==> ids[k] <= newest_id(ids),
    decreases ids.len(),
{
    if ids.len() > 1 {
        lemma_newest_id(ids.drop_last());
        let rest = newest_id(ids.drop_last());
        let j = choose|j: int| 0 <= j < ids.drop_last().len() && ids.drop_last()[j] == rest;
        assert(ids[j] == rest);
        assert forall|k: int| 0 <= k < ids.len() implies ids[k] <= newest_id(ids) by {
            if k < ids.len() - 1 {
                assert(ids[k] == ids.drop_last()[k]);
            }
        }
        if ids.last() > rest {
            assert(ids[ids.len() - 1] == newest_id(ids));
        }
    } else {
        assert(ids[0] == newest_id(ids));
    }
}

/// Paging through the messages after the "from" message, `limit` at a
/// time: a full page means more may follow, fetched after the newest id of
/// the page; a shorter page is the last.
pub fn page_step(page: &Vec<u64>, limit: usize) -> (res: PageStep)
    requires
        limit > 0,
    ensures
        page@.len() < limit ==> res is Done,
        page@.len() >= limit ==> res == PageStep::FetchAfter(newest_id(page@)),
{
    if page.len() < limit {
        return PageStep::Done;
    }
    let mut newest = page[0];
    let mut i: usize = 1;
    assert(page@.take(1) =~= seq![page@[0]]);
    while i < page.len()
        invariant
            1 <= i <= page@.len(),
            newest == newest_id(page@.take(i as int)),
        decreases page@.len() - i,
    {
        assert(page@.take(i + 1).drop_last() =~= page@.take(i as int));
        if page[i] > newest {
            newest = page[i];
        }
        i = i + 1;
    }
    assert(page@.take(i as int) =~= page@);
    PageStep::FetchAfter(newest)
}

/// The ids of the fetched pages, newest first: the last page fetched
/// (the newest messages) first, each page as listed.
pub open spec fn pages_newest_first(pages: Seq<Vec<u64>>) -> Seq<u64>
    decreases pages.len(),
{
    if pages.len() == 0 {
        Seq::empty()
    } else {
        pages_newest_first(pages.skip(1)) + pages[0]@
    }
}

/// The messages a rewind works through, by id: the fetched pages newest
/// first, then the "from" message itself.
pub fn rewind_order(pages: &Vec<Vec<u64>>, from_id: u64) -> (res: Vec<u64>)
    ensures
        res@ == pages_newest_first(pages@) + seq![from_id],
{
    let mut res: Vec<u64> = Vec::new();
    let mut i: usize = pages.len();
    assert(pages@.subrange(i as int, pages@.len() as int) =~= Seq::<Vec<u64>>::empty());
    while i > 0
        invariant
            i <= pages@.len(),
            res@ == pages_newest_first(pages@.subrange(i as int, pages@.len() as int)),
        decreases i,
    {
        let page = &pages[i - 1];
        let ghost before = res@;
        let mut j: usize = 0;
        while j < page.len()
            invariant
                j <= page@.len(),
                res@ == before + page@.take(j as int),
            decreases page@.len() - j,
        {
            res.push(page[j]);
            j = j + 1;
            assert(res@ =~= before + page@.take(j as int));
        }
        assert(page@.take(j as int) =~= page@);
        let ghost rest = pages@.subrange(i - 1, pages@.len() as int);
        assert(rest.skip(1) =~= pages@.subrange(i as int, pages@.len() as int));
        assert(rest[0] == pages@[i - 1]);
        i = i - 1;
    }
    assert(pages@.subrange(0, pages@.len() as int) =~= pages@);
    res.push(from_id);
    res
}

/// Whether each page lists its messages newest first, every page holds
/// newer messages than the pages fetched before it, and all of them are
/// newer than the "from" message: how Discord answers a fetch of the
/// messages after an id.
pub open spec fn pages_in_order(pages: Seq<Vec<u64>>, from_id: u64) -> bool {
    &&& forall|k: int| 0 <= k < pages.len() ==> newest_first(#[trigger] pages[k]@)
    &&& forall|k: int, l: int, a: int, b: int|
        0 <= k < l < pages.len() && 0 <= a < pages[k]@.len() && 0 <= b < pages[l]@.len() ==> #[trigger] pages[k]@[a]
            < #[trigger] pages[l]@[b]
    &&& forall|k: int, a: int| 0 <= k < pages.len() && 0 <= a < pages[k]@.len() ==> from_id < #[trigger] pages[k]@[a]
}

/// Every id listed newest first is one of the pages' ids.
proof fn lemma_page_ids(pages: Seq<Vec<u64>>, x: u64)
    requires
        pages_newest_first(pages).contains(x),
    ensures
        exists|k: int, a: int| 0 <= k < pages.len() && 0 <= a < pages[k]@.len() && pages[k]@[a] == x,
    decreases pages.len(),
{
    let rest = pages_newest_first(pages.skip(1));
    let all = rest + pages[0]@;
    let j = choose|j: int| 0 <= j < all.len() && all[j] == x;
    if j < rest.len() {
        assert(rest[j] == x);
        lemma_page_ids(pages.skip(1), x);
        let (k, a) = choose|k: int, a: int|
            0 <= k < pages.skip(1).len() && 0 <= a < pages.skip(1)[k]@.len() && pages.skip(1)[k]@[a] == x;
        assert(pages[k + 1]@[a] == x);
    } else {
        assert(pages[0]@[j - rest.len()] == x);
    }
}

/// Law of rewind paging: when Discord lists each page newest first and
/// later pages hold newer messages, all after the "from" message, the
/// messages a rewind works through run newest first down to the "from"
/// message, so the selection of [select_range] is the interval of
/// [lemma_range_is_interval].
pub proof fn lemma_rewind_order_newest_first(pages: Seq<Vec<u64>>, from_id: u64)
    requires
        pages_in_order(pages, from_id),
    ensures
        newest_first(pages_newest_first(pages) + seq![from_id]),
        (pages_newest_first(pages) + seq![from_id]).last() == from_id,
    decreases pages.len(),
{
    if pages.len() > 0 {
        let tail = pages.skip(1);
        assert(pages_in_order(tail, from_id)) by {
            assert forall|k: int| 0 <= k < tail.len() implies newest_first(#[trigger] tail[k]@) by {
                assert(tail[k] == pages[k + 1]);
            }
            assert forall|k: int, l: int, a: int, b: int|
                0 <= k < l < tail.len() && 0 <= a < tail[k]@.len() && 0 <= b < tail[l]@.len() implies #[trigger] tail[k]@[a]
                < #[trigger] tail[l]@[b] by {
                assert(tail[k] == pages[k + 1] && tail[l] == pages[l + 1]);
            }
            assert forall|k: int, a: int| 0 <= k < tail.len() && 0 <= a < tail[k]@.len() implies from_id
                < #[trigger] tail[k]@[a] by {
                assert(tail[k] == pages[k + 1]);
            }
        }
        lemma_rewind_order_newest_first(tail, from_id);
        let rest = pages_newest_first(tail);
        let first = pages[0]@;
        let all = rest + first + seq![from_id];
        assert(pages_newest_first(pages) + seq![from_id] =~= all);
        assert(newest_first(first)) by {
            assert(first == pages[0]@);
        }
        assert forall|a: int, b: int| 0 <= a < b < all.len() implies all[a] > all[b] by {
            if b < rest.len() {
                assert((rest + seq![from_id])[a] == all[a] && (rest + seq![from_id])[b] == all[b]);
            } else if b < rest.len() + first.len() {
                if a < rest.len() {
                    assert(rest.contains(all[a]));
                    lemma_page_ids(tail, all[a]);
                    let (k, x) = choose|k: int, x: int|
                        0 <= k < tail.len() && 0 <= x < tail[k]@.len() && tail[k]@[x] == all[a];
                    assert(tail[k] == pages[k + 1]);
                    assert(pages[0]@[b - rest.len()] < pages[k + 1]@[x]);
                } else {
                    assert(first[a - rest.len()] == all[a] && first[b - rest.len()] == all[b]);
                }
            } else {
                if a < rest.len() {
                    assert((rest + seq![from_id])[a] == all[a] && (rest + seq![from_id])[rest.len() as int]
                        == all[b]);
                } else {
                    assert(pages[0]@[a - rest.len()] == all[a]);
                }
            }
        }
    }
}

/// A deleted message as the archive records it.
pub struct ArchivedMessage {
    pub author: String,
    pub content: String,
}

/// One line of the archive: `author - content`.
pub open spec fn archive_line(m: ArchivedMessage) -> Seq<char> {
    m.author@ + " - "@ + m.content@ + "\n"@
}

/// The archive: one line per message, from the last message of the list to
/// the first (oldest first, as the list holds the newest first).
pub open spec fn archive_spec(messages: Seq<ArchivedMessage>) -> Seq<char>
    decreases messages.len(),
{
    if messages.len() == 0 {
        Seq::empty()
    } else {
        archive_line(messages.last()) + archive_spec(messages.drop_last())
    }
}

/// Law of the archive, one message: a list of one message is archived as
/// the single line `author - content`, whatever the content (an empty one
/// included).
pub proof fn lemma_archive_single(m: ArchivedMessage)
    ensures
        archive_spec(seq![m]) == m.author@ + " - "@ + m.content@ + "\n"@,
{
    assert(seq![m].drop_last() =~= Seq::<ArchivedMessage>::empty());
    assert(seq![m].last() == m);
    assert(archive_spec(Seq::<ArchivedMessage>::empty()) == Seq::<char>::empty());
    assert(archive_spec(seq![m]) == archive_line(m) + Seq::<char>::empty());
    assert(archive_spec(seq![m]) =~= m.author@ + " - "@ + m.content@ + "\n"@);
}

/// Law of the archive, two lists: the archive of the messages `newer`
/// followed by the older messages `older` is the archive of `older`
/// followed by that of `newer`; so every message of the list gets its own
/// line, and the line of the k-th message from the end comes k-th.
pub proof fn lemma_archive_append(newer: Seq<ArchivedMessage>, older: Seq<ArchivedMessage>)
    ensures
        archive_spec(newer + older) == archive_spec(older) + archive_spec(newer),
    decreases older.len(),
{
    if older.len() == 0 {
        assert(newer + older =~= newer);
        assert(archive_spec(older) + archive_spec(newer) =~= archive_spec(newer));
    } else {
        lemma_archive_append(newer, older.drop_last());
        assert((newer + older).drop_last() =~= newer + older.drop_last());
        assert((newer + older).last() == older.last());
        assert(archive_spec(newer + older) =~= archive_spec(older) + archive_spec(newer));
    }
}

/// Writes the archive of the deleted messages.
pub fn archive_text(messages: &Vec<ArchivedMessage>) -> (res: String)
    ensures
        res@ == archive_spec(messages@),
{
    let mut res = String::new();
    let mut i = messages.len();
    assert(messages@.take(i as int) =~= messages@);
    assert(res@ + archive_spec(messages@) =~= archive_spec(messages@));
    while i > 0
        invariant
            i <= messages@.len(),
            res@ + archive_spec(messages@.take(i as int)) == archive_spec(messages@),
        decreases i,
    {
        let m = &messages[i - 1];
        assert(messages@.take(i as int).drop_last() =~= messages@.take(i - 1));
        assert(messages@.take(i as int).last() == messages@[i - 1]);
        let a = concat(m.author.as_str(), " - ");
        let b = concat(a.as_str(), m.content.as_str());
        let line = concat(b.as_str(), "\n");
        let ghost before = res@;
        res = concat(res.as_str(), line.as_str());
        assert(res@ + archive_spec(messages@.take(i - 1)) =~= before + archive_spec(messages@.take(i as int)));
        i = i - 1;
    }
    assert(messages@.take(0) =~= Seq::<ArchivedMessage>::empty());
    assert(res@ + Seq::<char>::empty() =~= res@);
    assert(messages@.take(messages@.len() as int) =~= messages@);
    res
}

/// What `OffsetDateTime` formats as ISO 8601 (`Iso8601::DEFAULT`) for the
/// instant `nanos` nanoseconds after the Unix epoch, in UTC; `None` when
/// the instant is out of range.
pub uninterp spec fn iso8601_of(nanos: int) -> Option<Seq<char>>;

/// Formats an instant, given in nanoseconds since the Unix epoch, as an
/// ISO 8601 timestamp in UTC.
#[verifier::external_body]
pub(crate) fn format_iso8601(unix_nanos: i128) -> (res: Option<String>)
    ensures
        res matches Some(s) ==> iso8601_of(unix_nanos as int) == Some(s@),
        res is None ==> iso8601_of(unix_nanos as int) is None,
{
    let instant = time::OffsetDateTime::from_unix_timestamp_nanos(unix_nanos).ok()?;
    instant.format(&time::format_description::well_known::Iso8601::DEFAULT).ok()
}

/// The file name of the archive: `Archive-<server>-<timestamp>.txt`.
pub fn archive_name(guild_name: &str, timestamp: &str) -> (res: String)
    ensures
        res@ == "Archive-"@ + guild_name@ + "-"@ + timestamp@ + ".txt"@,
{
    let a = concat("Archive-", guild_name);
    let b = concat(a.as_str(), "-");
    let c = concat(b.as_str(), timestamp);
    concat(c.as_str(), ".txt")
}

/// The file name of the archive written at the instant `now_unix_nanos`:
/// `Archive-<server>-<ISO 8601 time>.txt`; `None` when the instant cannot
/// be formatted.
pub fn archive_file_name(guild_name: &str, now_unix_nanos: i128) -> (res: Option<String>)
    ensures
        match iso8601_of(now_unix_nanos as int) {
            Some(t) => res matches Some(s) && s@ == "Archive-"@ + guild_name@ + "-"@ + t + ".txt"@,
            None => res is None,
        },
{
    match format_iso8601(now_unix_nanos) {
        Some(t) => Some(archive_name(guild_name, t.as_str())),
        None => None,
    }
}

/// The text confirming the deletion of the messages from `first` to `last`.
pub open spec fn deleted_text(first: u64, last: u64) -> Seq<char> {
    "Messages "@ + decimal(first as nat) + " through "@ + decimal(last as nat)
        + " successfully deleted. An archive of the deleted messages has been attached for moderation purposes."@
}

/// The answer once the messages were deleted.
pub fn deleted_embed(first: u64, last: u64) -> (res: Embed)
    ensures
        res@ == status_view(":white_check_mark:"@, "Messages Deleted"@, deleted_text(first, last), rgb(102, 51, 102)),
{
    let f = u64_to_decimal(first);
    let l = u64_to_decimal(last);
    let a = concat("Messages ", f.as_str());
    let b = concat(a.as_str(), " through ");
    let c = concat(b.as_str(), l.as_str());
    success(
        Some("Messages Deleted"),
        concat(
            c.as_str(),
            " successfully deleted. An archive of the deleted messages has been attached for moderation purposes.",
        ),
    )
}

} // verus!
