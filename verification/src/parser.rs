//! The streaming feed parser: a single-pass, stack-based interpreter
//! over XML parsing events.
//!
//! The machine keeps a stack of the recognized elements currently
//! open, routes character data to the draft field named by the top of
//! the stack, validates that recognized tags close in exact stack
//! order, and flushes the draft into the output list each time an
//! `item` element closes.  [`step`] is the transition relation,
//! [`parse_events_spec`] folds it over a whole event sequence, and the
//! executable [`parse_events`] is proved to return exactly that fold.

use crate::context::{resolve_context, spec_resolve, Context};
use crate::event::{xml_events_of, tokenize, Event, EventModel};
use crate::item::{default_item, Item, ItemModel};
use crate::text::{trim_fragment, trim_of};
use crate::timestamp::{parse_rfc3339, rfc3339_of};
use vstd::prelude::*;
use vstd::string::StringExecFns;

verus! {

/// A fatal parse failure.
#[derive(Debug)]
pub enum RssError {
    /// A recognized closing tag did not match the innermost open
    /// recognized element: carries the tokenizer's row and column, the
    /// context that was open, and the context the tag closed.
    ContextMismatch(u64, u64, Context, Context),
    /// A recognized closing tag arrived while no recognized element
    /// was open at all: carries the row, the column and the closed
    /// context.
    UnexpectedClose(u64, u64, Context),
    /// The tokenizer reported malformed XML: carries its message,
    /// which names its position.
    Tokenizer(String),
}

/// The model of an [`RssError`].
pub enum RssErrorModel {
    ContextMismatch(u64, u64, Context, Context),
    UnexpectedClose(u64, u64, Context),
    Tokenizer(Seq<char>),
}

impl View for RssError {
    type V = RssErrorModel;

    open spec fn view(&self) -> RssErrorModel {
        match self {
            RssError::ContextMismatch(row, column, expected, found) => RssErrorModel::ContextMismatch(
                *row,
                *column,
                *expected,
                *found,
            ),
            RssError::UnexpectedClose(row, column, found) => RssErrorModel::UnexpectedClose(
                *row,
                *column,
                *found,
            ),
            RssError::Tokenizer(message) => RssErrorModel::Tokenizer(message@),
        }
    }
}

/// The machine's state: the stack of open recognized contexts, the
/// item draft being filled in, and the items emitted so far.
#[verifier::ext_equal]
pub struct StateModel {
    pub stack: Seq<Context>,
    pub draft: ItemModel,
    pub emitted: Seq<ItemModel>,
}

/// The state a parse starts from: empty stack, fresh draft, nothing
/// emitted.
pub open spec fn init_state() -> StateModel {
    StateModel { stack: Seq::empty(), draft: default_item(), emitted: Seq::empty() }
}

/// What one event does to the machine.
pub enum StepOutcome {
    /// The machine carries on in this state.
    Next(StateModel),
    /// The end-of-document marker: the parse stops, returning the
    /// items emitted so far.
    Done(Seq<ItemModel>),
    /// A fatal failure: the parse aborts with this error.
    Fail(RssErrorModel),
}

/// A character-data fragment, trimmed of leading and trailing
/// whitespace, joins the draft field named by the active context:
/// appended for the text fields, while a Dublin Core date replaces
/// `created` if and only if it is a valid RFC-3339 value.  A fragment
/// under the `item` context itself is discarded.
pub open spec fn append_fragment(draft: ItemModel, active: Context, text: Seq<char>) -> ItemModel {
    match active {
        Context::Title => ItemModel { title: draft.title + trim_of(text), ..draft },
        Context::Link => ItemModel { link: draft.link + trim_of(text), ..draft },
        Context::DcCreator => ItemModel { author: draft.author + trim_of(text), ..draft },
        Context::Description => ItemModel { description: draft.description + trim_of(text), ..draft },
        Context::DcDate => match rfc3339_of(trim_of(text)) {
            Some(t) => ItemModel { created: t, ..draft },
            None => draft,
        },
        Context::Item => draft,
    }
}

/// The transition relation of the parser.
///
/// - A recognized start tag pushes its context; opening an `item`
///   resets the draft.  An unrecognized start tag changes nothing.
/// - A recognized end tag pops the stack and must match what it pops;
///   closing an `item` emits the draft and leaves a fresh one.  An
///   unrecognized end tag changes nothing.
/// - Character data joins the draft field of the innermost open
///   recognized element, if any.
/// - The end-of-document marker ends the parse successfully; a
///   tokenizer fault ends it with that fault; any other event is
///   ignored.
pub open spec fn step(st: StateModel, ev: EventModel) -> StepOutcome {
    match ev {
        EventModel::Start(local, namespace) => match spec_resolve(local, namespace) {
            Some(c) => StepOutcome::Next(
                StateModel {
                    stack: st.stack.push(c),
                    draft: if c == Context::Item { default_item() } else { st.draft },
                    emitted: st.emitted,
                },
            ),
            None => StepOutcome::Next(st),
        },
        EventModel::End(local, namespace, row, column) => match spec_resolve(local, namespace) {
            Some(c) => {
                if st.stack.len() == 0 {
                    StepOutcome::Fail(RssErrorModel::UnexpectedClose(row, column, c))
                } else if st.stack.last() != c {
                    StepOutcome::Fail(RssErrorModel::ContextMismatch(row, column, st.stack.last(), c))
                } else {
                    StepOutcome::Next(
                        StateModel {
                            stack: st.stack.drop_last(),
                            draft: if c == Context::Item { default_item() } else { st.draft },
                            emitted: if c == Context::Item { st.emitted.push(st.draft) } else { st.emitted },
                        },
                    )
                }
            },
            None => StepOutcome::Next(st),
        },
        EventModel::Text(content) => {
            if st.stack.len() > 0 {
                StepOutcome::Next(
                    StateModel {
                        stack: st.stack,
                        draft: append_fragment(st.draft, st.stack.last(), content),
                        emitted: st.emitted,
                    },
                )
            } else {
                StepOutcome::Next(st)
            }
        },
        EventModel::EndDocument => StepOutcome::Done(st.emitted),
        EventModel::Fault(message) => StepOutcome::Fail(RssErrorModel::Tokenizer(message)),
        EventModel::Other => StepOutcome::Next(st),
    }
}

/// Folds [`step`] over the events, starting from `st`: the items the
/// parse returns, or its first fatal error.  A stream that simply runs
/// out of events ends the parse as the end-of-document marker does.
pub open spec fn run_from(events: Seq<EventModel>, st: StateModel) -> Result<
    Seq<ItemModel>,
    RssErrorModel,
>
    decreases events.len(),
{
    if events.len() == 0 {
        Ok(st.emitted)
    } else {
        match step(st, events[0]) {
            StepOutcome::Next(st2) => run_from(events.drop_first(), st2),
            StepOutcome::Done(out) => Ok(out),
            StepOutcome::Fail(e) => Err(e),
        }
    }
}

/// What a whole parse of an event sequence returns.
pub open spec fn parse_events_spec(events: Seq<EventModel>) -> Result<
    Seq<ItemModel>,
    RssErrorModel,
> {
    run_from(events, init_state())
}

/// Drives one sequential pass over the events and returns the ordered
/// list of completed items, or the first fatal error: exactly what
/// [`parse_events_spec`] says.
pub fn parse_events(events: &Vec<Event>) -> (r: Result<Vec<Item>, RssError>)
    ensures
        match r {
            Ok(items) => parse_events_spec(events.deep_view()) == Ok::<
                Seq<ItemModel>,
                RssErrorModel,
            >(items.deep_view()),
            Err(e) => parse_events_spec(events.deep_view()) == Err::<
                Seq<ItemModel>,
                RssErrorModel,
            >(e@),
        },
{
    let ghost all = events.deep_view();
    let mut emitted: Vec<Item> = Vec::new();
    let mut draft: Item = Item::default();
    let mut stack: Vec<Context> = Vec::new();
    let mut i: usize = 0;
    proof {
        assert(all.skip(0) =~= all);
        assert(emitted.deep_view() =~= Seq::<ItemModel>::empty());
        assert(StateModel { stack: stack@, draft: draft@, emitted: emitted.deep_view() }
            =~= init_state());
    }
    while i < events.len()
        invariant
            i <= events.len(),
            all == events.deep_view(),
            run_from(
                all.skip(i as int),
                StateModel { stack: stack@, draft: draft@, emitted: emitted.deep_view() },
            ) == parse_events_spec(all),
        decreases events.len() - i,
    {
        let ghost pre = StateModel { stack: stack@, draft: draft@, emitted: emitted.deep_view() };
        proof {
            assert(all.skip(i as int)[0] == all[i as int]);
            assert(all.skip(i as int).drop_first() =~= all.skip(i as int + 1));
        }
        match &events[i] {
            Event::Start(local, namespace) => {
                let ns: Option<&str> = match namespace {
                    Some(s) => Some(s.as_str()),
                    None => None,
                };
                proof {
                    assert(ns.deep_view() == namespace.deep_view());
                }
                match resolve_context(local.as_str(), ns) {
                    Some(c) => {
                        if c == Context::Item {
                            draft = Item::default();
                        }
                        stack.push(c);
                    },
                    None => {},
                }
            },
            Event::End(local, namespace, row, column) => {
                let ns: Option<&str> = match namespace {
                    Some(s) => Some(s.as_str()),
                    None => None,
                };
                proof {
                    assert(ns.deep_view() == namespace.deep_view());
                }
                match resolve_context(local.as_str(), ns) {
                    Some(c) => {
                        if stack.len() == 0 {
                            return Err(RssError::UnexpectedClose(*row, *column, c));
                        }
                        let top = stack.pop().unwrap();
                        if top != c {
                            return Err(RssError::ContextMismatch(*row, *column, top, c));
                        }
                        if c == Context::Item {
                            emitted.push(draft.snapshot());
                            draft = Item::default();
                            proof {
                                assert(emitted.deep_view() =~= pre.emitted.push(pre.draft));
                            }
                        }
                    },
                    None => {},
                }
            },
            Event::Text(content) => {
                if stack.len() > 0 {
                    let active = stack[stack.len() - 1];
                    let trimmed = trim_fragment(content.as_str());
                    match active {
                        Context::Title => draft.title.append(trimmed),
                        Context::Link => draft.link.append(trimmed),
                        Context::DcCreator => draft.author.append(trimmed),
                        Context::Description => draft.description.append(trimmed),
                        Context::DcDate => {
                            match parse_rfc3339(trimmed) {
                                Some(t) => {
                                    draft.created = t;
                                },
                                None => {},
                            }
                        },
                        Context::Item => {},
                    }
                    proof {
                        assert(draft@ =~= append_fragment(pre.draft, pre.stack.last(), content@));
                    }
                }
            },
            Event::EndDocument => {
                return Ok(emitted);
            },
            Event::Fault(message) => {
                return Err(RssError::Tokenizer(message.clone()));
            },
            Event::Other => {},
        }
        proof {
            let post = StateModel { stack: stack@, draft: draft@, emitted: emitted.deep_view() };
            assert(step(pre, all[i as int]) == StepOutcome::Next(post));
        }
        i = i + 1;
    }
    Ok(emitted)
}

/// Tokenizes the document text and parses the resulting event stream:
/// the ordered list of completed items, or the first fatal error, as
/// [`parse_events_spec`] determines it on the tokenizer's events.
pub fn parse_feed(body: &str) -> (r: Result<Vec<Item>, RssError>)
    ensures
        match r {
            Ok(items) => parse_events_spec(xml_events_of(body@)) == Ok::<
                Seq<ItemModel>,
                RssErrorModel,
            >(items.deep_view()),
            Err(e) => parse_events_spec(xml_events_of(body@)) == Err::<
                Seq<ItemModel>,
                RssErrorModel,
            >(e@),
        },
{
    let events = tokenize(body);
    parse_events(&events)
}

} // verus!
