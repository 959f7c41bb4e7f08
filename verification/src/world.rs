use vstd::prelude::*;
use crate::failure::Failure;
use crate::flow::{announce_text, next, report_text, url_of, ActionView, EventView, StageView};
use crate::link::{filter_fields, short_of};
use crate::request::{fits_header, request_for, RequestView};
use crate::response::response_id;
use crate::settings::settings_of;

verus! {

/// What lies outside a run, as far as a run can tell: the settings, the
/// document store, the shortening service and the standard output. It is a
/// model to state laws over: one run at a time, and a store that keeps its
/// records in the order in which they came.
pub struct World {
    /// The text of the settings, if they can be read.
    pub settings: Option<Seq<char>>,
    /// Whether the store takes connections and answers queries.
    pub online: bool,
    /// Whether the store takes inserts.
    pub writable: bool,
    /// The records of the collection, oldest first, each as its fields.
    pub records: Seq<Map<Seq<char>, Option<Seq<char>>>>,
    /// The body that the service answers a request with, if it answers.
    pub reply: spec_fn(RequestView) -> Option<Seq<char>>,
    /// The requests that the service was sent, oldest first.
    pub posted: Seq<RequestView>,
    /// The lines on the standard output, oldest first.
    pub printed: Seq<Seq<char>>,
}

/// A record matches a query when it has each field of the query as a
/// string with the same text.
pub open spec fn satisfies(
    record: Map<Seq<char>, Option<Seq<char>>>,
    filter: Map<Seq<char>, Option<Seq<char>>>,
) -> bool {
    forall|key: Seq<char>| #[trigger] filter.contains_key(key) ==> {
        &&& filter[key] is Some
        &&& record.contains_key(key)
        &&& record[key] == filter[key]
    }
}

/// The store's answer to a query, taken to be the oldest record that
/// matches.
pub open spec fn find_one(
    records: Seq<Map<Seq<char>, Option<Seq<char>>>>,
    filter: Map<Seq<char>, Option<Seq<char>>>,
) -> Option<Map<Seq<char>, Option<Seq<char>>>>
    decreases records.len(),
{
    if records.len() == 0 {
        None
    } else if satisfies(records[0], filter) {
        Some(records[0])
    } else {
        find_one(records.drop_first(), filter)
    }
}

/// The URL that a record is the record of: the text of its field `url`, if
/// it has one that is a string.
pub open spec fn url_in(record: Map<Seq<char>, Option<Seq<char>>>) -> Option<Seq<char>> {
    if record.contains_key("url"@) {
        record["url"@]
    } else {
        None
    }
}

/// No two records of the store are records of one URL.
pub open spec fn one_record_each(records: Seq<Map<Seq<char>, Option<Seq<char>>>>) -> bool {
    forall|i: int, j: int|
        #![trigger url_in(records[i]), url_in(records[j])]
        0 <= i < j < records.len() && url_in(records[i]) is Some ==> url_in(records[i])
            != url_in(records[j])
}

/// What the world reports back when the action is carried out in it.
pub open spec fn answer(world: World, action: ActionView) -> EventView {
    match action {
        ActionView::ReadSettings { path } => match world.settings {
            Some(text) => EventView::SettingsRead { text },
            None => EventView::Failed,
        },
        ActionView::Connect { client_uri, database, collection } => if world.online {
            EventView::Connected
        } else {
            EventView::Failed
        },
        ActionView::FindOne { filter } => if world.online {
            match find_one(world.records, filter) {
                Some(record) => EventView::Found { record },
                None => EventView::NotFound,
            }
        } else {
            EventView::Failed
        },
        ActionView::Post { request } => match (world.reply)(request) {
            Some(body) => EventView::Responded { body },
            None => EventView::Failed,
        },
        ActionView::Record { line, record } => if world.writable {
            EventView::Stored
        } else {
            EventView::Failed
        },
        _ => EventView::Failed,
    }
}

/// The world after the action has been carried out in it.
pub open spec fn effect(world: World, action: ActionView) -> World {
    match action {
        ActionView::Post { request } => World { posted: world.posted.push(request), ..world },
        ActionView::Report { line } => World { printed: world.printed.push(line), ..world },
        ActionView::Record { line, record } => World {
            printed: world.printed.push(line),
            records: if world.writable {
                world.records.push(record)
            } else {
                world.records
            },
            ..world
        },
        _ => world,
    }
}

/// Whether the action ends the run.
pub open spec fn ends(action: ActionView) -> bool {
    action is Report || action is Exit || action is Abort
}

/// The number of steps that a run can still take from a stage.
pub open spec fn steps_left(stage: StageView) -> nat {
    match stage {
        StageView::Idle => 6,
        StageView::LoadingSettings { .. } => 5,
        StageView::Connecting { .. } => 4,
        StageView::Looking { .. } => 3,
        StageView::Shortening { .. } => 2,
        StageView::Storing => 1,
        StageView::Done => 0,
        StageView::Failed { .. } => 0,
    }
}

/// A run from its start to its end: the world it leaves, the stage it ends
/// in, and the actions it asked for, in order.
pub struct Run {
    pub world: World,
    pub stage: StageView,
    pub actions: Seq<ActionView>,
}

/// The rest of a run that has reached `stage` and asks for `action`: the
/// world carries out the action and reports back, the run takes its next
/// step, until an action ends it.
pub open spec fn drive(world: World, stage: StageView, action: ActionView) -> Run
    decreases steps_left(stage),
{
    let after = effect(world, action);
    if ends(action) || steps_left(stage) == 0 {
        Run { world: after, stage, actions: seq![action] }
    } else {
        let step = next(stage, answer(world, action));
        let rest = drive(after, step.0, step.1);
        Run { world: rest.world, stage: rest.stage, actions: seq![action] + rest.actions }
    }
}

/// The run of the program in `world` on the command line `args`.
pub open spec fn run(world: World, args: Seq<Seq<char>>) -> Run {
    let step = next(StageView::Idle, EventView::Launched { args });
    drive(world, step.0, step.1)
}

/// How the program is meant to end in `world` on the command line `args`:
/// with the one line that it prints, or with the first thing that fails.
/// The argument is looked at first, then the settings, then the store; the
/// shortening service is asked only for a URL that the store does not know,
/// and the store is given a record only of what the service answered.
pub open spec fn outcome(world: World, args: Seq<Seq<char>>) -> Result<Seq<char>, Failure> {
    match (url_of(args), world.settings) {
        (None, _) => Err(Failure::MissingArgument),
        (Some(url), None) => Err(Failure::Settings),
        (Some(url), Some(text)) => match settings_of(text) {
            None => Err(Failure::Settings),
            Some((token, client_uri)) => if !world.online {
                Err(Failure::Connection)
            } else {
                match find_one(world.records, filter_fields(url)) {
                    Some(record) => match short_of(record) {
                        Some(short) => Ok(report_text(short)),
                        None => Err(Failure::Store),
                    },
                    None => outcome_of_request(world, url, token),
                }
            },
        },
    }
}

/// How the program is meant to end once the store has turned out not to
/// know the URL.
pub open spec fn outcome_of_request(
    world: World,
    url: Seq<char>,
    token: Seq<char>,
) -> Result<Seq<char>, Failure> {
    if !fits_header(token) {
        Err(Failure::Remote)
    } else {
        match (world.reply)(request_for(url, token)) {
            None => Err(Failure::Remote),
            Some(body) => match response_id(body) {
                None => Err(Failure::Response),
                Some(short) => if world.writable {
                    Ok(announce_text(short))
                } else {
                    Err(Failure::Store)
                },
            },
        }
    }
}

/// The world after the program has run in it on the command line `args`
/// so many times, one run after the other.
pub open spec fn rerun(world: World, args: Seq<Seq<char>>, times: nat) -> World
    decreases times,
{
    if times == 0 {
        world
    } else {
        run(rerun(world, args, (times - 1) as nat), args).world
    }
}

} // verus!
