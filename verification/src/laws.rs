use vstd::prelude::*;
use crate::failure::Failure;
use crate::flow::{announce_text, report_text, url_of, ActionView, StageView};
use crate::link::{filter_fields, record_fields, short_of, COLLECTION, DATABASE};
use crate::request::{fits_header, request_for};
use crate::response::response_id;
use crate::settings::{settings_of, SETTINGS_FILE};
use crate::world::{
    drive, ends, find_one, one_record_each, outcome, rerun, run, satisfies, url_in, World,
};

verus! {

/// A record that matches a query, added to a store that has no match, is
/// what the store then answers the query with.
pub proof fn lemma_find_added(
    records: Seq<Map<Seq<char>, Option<Seq<char>>>>,
    record: Map<Seq<char>, Option<Seq<char>>>,
    filter: Map<Seq<char>, Option<Seq<char>>>,
)
    requires
        find_one(records, filter) is None,
        satisfies(record, filter),
    ensures
        find_one(records.push(record), filter) == Some(record),
    decreases records.len(),
{
    if records.len() > 0 {
        assert(records.push(record).drop_first() == records.drop_first().push(record));
        lemma_find_added(records.drop_first(), record, filter);
    }
}

/// A store that answers a query with nothing has no record that matches it.
pub proof fn lemma_none_found(
    records: Seq<Map<Seq<char>, Option<Seq<char>>>>,
    filter: Map<Seq<char>, Option<Seq<char>>>,
    i: int,
)
    requires
        find_one(records, filter) is None,
        0 <= i < records.len(),
    ensures
        !satisfies(records[i], filter),
    decreases records.len(),
{
    if i > 0 {
        lemma_none_found(records.drop_first(), filter, i - 1);
    }
}

/// A record matches the query for a URL exactly when it is a record of
/// that URL.
pub proof fn lemma_filter_by_url(record: Map<Seq<char>, Option<Seq<char>>>, url: Seq<char>)
    ensures
        satisfies(record, filter_fields(url)) <==> url_in(record) == Some(url),
{
    assert(filter_fields(url).contains_key("url"@));
}

/// The record of a URL matches the query for that URL.
pub proof fn lemma_record_matches(url: Seq<char>, short: Seq<char>)
    ensures
        satisfies(record_fields(url, short), filter_fields(url)),
        short_of(record_fields(url, short)) == Some(short),
{
    reveal_strlit("url");
    reveal_strlit("short");
    assert("url"@.len() == 3);
    assert("short"@.len() == 5);
}

/// A URL that the store does not know: the run asks the shortening service
/// once and inserts one record, that of the URL with the `id` of the
/// service's answer, and the one line it prints is `Newly created: ` and
/// that `id`.
pub proof fn law_miss(
    world: World,
    args: Seq<Seq<char>>,
    url: Seq<char>,
    text: Seq<char>,
    token: Seq<char>,
    client_uri: Seq<char>,
    body: Seq<char>,
    short: Seq<char>,
)
    requires
        url_of(args) == Some(url),
        world.settings == Some(text),
        settings_of(text) == Some((token, client_uri)),
        world.online,
        world.writable,
        find_one(world.records, filter_fields(url)) is None,
        fits_header(token),
        (world.reply)(request_for(url, token)) == Some(body),
        response_id(body) == Some(short),
    ensures
        run(world, args).actions == seq![
            ActionView::ReadSettings { path: SETTINGS_FILE@ },
            ActionView::Connect { client_uri, database: DATABASE@, collection: COLLECTION@ },
            ActionView::FindOne { filter: filter_fields(url) },
            ActionView::Post { request: request_for(url, token) },
            ActionView::Record { line: announce_text(short), record: record_fields(url, short) },
            ActionView::Exit,
        ],
        run(world, args).stage == StageView::Done,
        run(world, args).world.posted == world.posted.push(request_for(url, token)),
        run(world, args).world.records == world.records.push(record_fields(url, short)),
        run(world, args).world.printed == world.printed.push(announce_text(short)),
        run(world, args).world.settings == world.settings,
        run(world, args).world.online == world.online,
        run(world, args).world.writable == world.writable,
        run(world, args).world.reply == world.reply,
{
    reveal_with_fuel(drive, 7);
}

/// A URL that the store knows: the run asks the shortening service nothing
/// and inserts nothing, and the one line it prints is `From database: `
/// and the short link of the stored record.
pub proof fn law_hit(
    world: World,
    args: Seq<Seq<char>>,
    url: Seq<char>,
    text: Seq<char>,
    token: Seq<char>,
    client_uri: Seq<char>,
    record: Map<Seq<char>, Option<Seq<char>>>,
    short: Seq<char>,
)
    requires
        url_of(args) == Some(url),
        world.settings == Some(text),
        settings_of(text) == Some((token, client_uri)),
        world.online,
        find_one(world.records, filter_fields(url)) == Some(record),
        short_of(record) == Some(short),
    ensures
        run(world, args).actions == seq![
            ActionView::ReadSettings { path: SETTINGS_FILE@ },
            ActionView::Connect { client_uri, database: DATABASE@, collection: COLLECTION@ },
            ActionView::FindOne { filter: filter_fields(url) },
            ActionView::Report { line: report_text(short) },
        ],
        run(world, args).stage == StageView::Done,
        run(world, args).world == (World {
            printed: world.printed.push(report_text(short)),
            ..world
        }),
{
    reveal_with_fuel(drive, 7);
}

/// Looking up a stored URL again gives the same short link, however often:
/// every further run finds the record that the first one found, asks for
/// the same actions and prints the same line, and none of them changes the
/// store or asks the shortening service.
pub proof fn law_repeated_lookup(
    world: World,
    args: Seq<Seq<char>>,
    url: Seq<char>,
    text: Seq<char>,
    token: Seq<char>,
    client_uri: Seq<char>,
    record: Map<Seq<char>, Option<Seq<char>>>,
    short: Seq<char>,
    times: nat,
)
    requires
        url_of(args) == Some(url),
        world.settings == Some(text),
        settings_of(text) == Some((token, client_uri)),
        world.online,
        find_one(world.records, filter_fields(url)) == Some(record),
        short_of(record) == Some(short),
    ensures
        rerun(world, args, times).records == world.records,
        rerun(world, args, times).posted == world.posted,
        rerun(world, args, times).settings == world.settings,
        rerun(world, args, times).online == world.online,
        find_one(rerun(world, args, times).records, filter_fields(url)) == Some(record),
        run(rerun(world, args, times), args).actions == run(world, args).actions,
        run(rerun(world, args, times), args).world.printed == rerun(
            world,
            args,
            times,
        ).printed.push(report_text(short)),
    decreases times,
{
    if times > 0 {
        let before = rerun(world, args, (times - 1) as nat);
        law_repeated_lookup(
            world,
            args,
            url,
            text,
            token,
            client_uri,
            record,
            short,
            (times - 1) as nat,
        );
        law_hit(before, args, url, text, token, client_uri, record, short);
    }
    law_hit(world, args, url, text, token, client_uri, record, short);
    law_hit(rerun(world, args, times), args, url, text, token, client_uri, record, short);
}

/// What a run stores for a new URL, a later lookup finds, with the fields
/// it was stored with: the next run for that URL asks the service nothing
/// and prints `From database: ` and the short link.
pub proof fn law_round_trip(
    world: World,
    args: Seq<Seq<char>>,
    url: Seq<char>,
    text: Seq<char>,
    token: Seq<char>,
    client_uri: Seq<char>,
    body: Seq<char>,
    short: Seq<char>,
)
    requires
        url_of(args) == Some(url),
        world.settings == Some(text),
        settings_of(text) == Some((token, client_uri)),
        world.online,
        world.writable,
        find_one(world.records, filter_fields(url)) is None,
        fits_header(token),
        (world.reply)(request_for(url, token)) == Some(body),
        response_id(body) == Some(short),
    ensures
        find_one(run(world, args).world.records, filter_fields(url)) == Some(
            record_fields(url, short),
        ),
        short_of(record_fields(url, short)) == Some(short),
        run(run(world, args).world, args).world.posted == run(world, args).world.posted,
        run(run(world, args).world, args).world.records == run(world, args).world.records,
        run(run(world, args).world, args).world.printed == run(world, args).world.printed.push(
            report_text(short),
        ),
{
    law_miss(world, args, url, text, token, client_uri, body, short);
    lemma_record_matches(url, short);
    lemma_find_added(world.records, record_fields(url, short), filter_fields(url));
    law_hit(
        run(world, args).world,
        args,
        url,
        text,
        token,
        client_uri,
        record_fields(url, short),
        short,
    );
}

/// A command line without an argument: the run ends at once with
/// `Failure::MissingArgument`. It asks for nothing else, and leaves the
/// world as it was.
pub proof fn law_missing_argument(world: World, args: Seq<Seq<char>>)
    requires
        args.len() < 2,
    ensures
        run(world, args).actions == seq![ActionView::Abort { failure: Failure::MissingArgument }],
        run(world, args).stage == (StageView::Failed { failure: Failure::MissingArgument }),
        run(world, args).world == world,
{
    reveal_with_fuel(drive, 2);
}

/// An answer of the shortening service without an `id`: the run ends with
/// `Failure::Response`. It prints nothing and inserts nothing.
pub proof fn law_missing_id(
    world: World,
    args: Seq<Seq<char>>,
    url: Seq<char>,
    text: Seq<char>,
    token: Seq<char>,
    client_uri: Seq<char>,
    body: Seq<char>,
)
    requires
        url_of(args) == Some(url),
        world.settings == Some(text),
        settings_of(text) == Some((token, client_uri)),
        world.online,
        find_one(world.records, filter_fields(url)) is None,
        fits_header(token),
        (world.reply)(request_for(url, token)) == Some(body),
        response_id(body) is None,
    ensures
        run(world, args).actions == seq![
            ActionView::ReadSettings { path: SETTINGS_FILE@ },
            ActionView::Connect { client_uri, database: DATABASE@, collection: COLLECTION@ },
            ActionView::FindOne { filter: filter_fields(url) },
            ActionView::Post { request: request_for(url, token) },
            ActionView::Abort { failure: Failure::Response },
        ],
        run(world, args).stage == (StageView::Failed { failure: Failure::Response }),
        run(world, args).world.records == world.records,
        run(world, args).world.printed == world.printed,
{
    reveal_with_fuel(drive, 7);
}

/// A store that holds one record at most of each URL still does so after a
/// run, whatever the run was asked and however it ended.
pub proof fn law_one_record_per_url(world: World, args: Seq<Seq<char>>)
    requires
        one_record_each(world.records),
    ensures
        one_record_each(run(world, args).world.records),
{
    reveal_with_fuel(drive, 7);
    let before = world.records;
    let after = run(world, args).world.records;
    if after != before {
        let url = url_of(args)->0;
        let added = after.last();
        assert(after == before.push(added));
        assert(find_one(before, filter_fields(url)) is None);
        assert(url_in(added) == Some(url)) by {
            reveal_strlit("url");
            reveal_strlit("short");
            assert("url"@.len() == 3);
            assert("short"@.len() == 5);
        }
        assert forall|i: int, j: int|
            #![trigger url_in(after[i]), url_in(after[j])]
            0 <= i < j < after.len() && url_in(after[i]) is Some implies url_in(after[i])
                != url_in(after[j]) by {
            if j == before.len() {
                lemma_none_found(before, filter_fields(url), i);
                lemma_filter_by_url(before[i], url);
            } else {
                assert(after[i] == before[i]);
                assert(after[j] == before[j]);
            }
        }
    }
}

/// Every run ends: after six actions at most, with an action that ends a
/// run, in `Done` or in `Failed`. Nothing is tried twice: a run sends the
/// shortening service one request at most, and gives the store one record
/// at most. What was there before stays.
pub proof fn law_run_ends(world: World, args: Seq<Seq<char>>)
    ensures
        1 <= run(world, args).actions.len() <= 6,
        ends(run(world, args).actions.last()),
        run(world, args).stage is Done || run(world, args).stage is Failed,
        world.posted.is_prefix_of(run(world, args).world.posted),
        run(world, args).world.posted.len() <= world.posted.len() + 1,
        world.records.is_prefix_of(run(world, args).world.records),
        run(world, args).world.records.len() <= world.records.len() + 1,
        world.printed.is_prefix_of(run(world, args).world.printed),
        run(world, args).world.printed.len() <= world.printed.len() + 1,
{
    reveal_with_fuel(drive, 7);
}

/// Every run ends as `outcome` says. Where that is a line, the run ends in
/// `Done` and has printed that line and no other. Where that is a failure,
/// the run ends in `Failed` with it and has stored nothing; it has printed
/// nothing either, unless what failed was the insert, which comes after the
/// line.
pub proof fn law_outcome(world: World, args: Seq<Seq<char>>)
    ensures
        outcome(world, args) matches Ok(line) ==> {
            &&& run(world, args).stage == StageView::Done
            &&& run(world, args).world.printed == world.printed.push(line)
        },
        outcome(world, args) matches Err(failure) ==> {
            &&& run(world, args).stage == (StageView::Failed { failure })
            &&& run(world, args).world.records == world.records
            &&& {
                ||| run(world, args).world.printed == world.printed
                ||| failure == Failure::Store && !world.writable
            }
        },
{
    reveal_with_fuel(drive, 7);
}

} // verus!
