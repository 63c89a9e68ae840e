//! General properties of the parser, stated and proved over the
//! machine's transition relation.

use crate::context::{spec_resolve, Context};
use crate::event::EventModel;
use crate::item::ItemModel;
use crate::parser::{
    append_fragment, init_state, parse_events_spec, run_from, step, RssErrorModel, StateModel,
    StepOutcome,
};
use crate::text::trim_of;
use crate::timestamp::rfc3339_of;
use vstd::prelude::*;

verus! {

/// An event of the document body: anything but the end-of-document
/// marker and a tokenizer fault.
pub open spec fn is_body_event(ev: EventModel) -> bool {
    !(ev is EndDocument) && !(ev is Fault)
}

/// The context a start tag resolves to, or `None` for any other event.
pub open spec fn opens_context(ev: EventModel) -> Option<Context> {
    match ev {
        EventModel::Start(local, namespace) => spec_resolve(local, namespace),
        _ => None,
    }
}

/// The context an end tag resolves to, or `None` for any other event.
pub open spec fn closes_context(ev: EventModel) -> Option<Context> {
    match ev {
        EventModel::End(local, namespace, ..) => spec_resolve(local, namespace),
        _ => None,
    }
}

/// How many events of the sequence open a recognized `item` element.
pub open spec fn count_item_opens(events: Seq<EventModel>) -> nat
    decreases events.len(),
{
    if events.len() == 0 {
        0
    } else {
        (if opens_context(events[0]) == Some(Context::Item) {
            1nat
        } else {
            0nat
        }) + count_item_opens(events.drop_first())
    }
}

/// How many events of the sequence close a recognized `item` element.
pub open spec fn count_item_closes(events: Seq<EventModel>) -> nat
    decreases events.len(),
{
    if events.len() == 0 {
        0
    } else {
        (if closes_context(events[0]) == Some(Context::Item) {
            1nat
        } else {
            0nat
        }) + count_item_closes(events.drop_first())
    }
}

/// The stack of open recognized contexts left after the events, or
/// `None` where some recognized end tag fails to match: the pure
/// nesting discipline, with the items and drafts abstracted away.
pub open spec fn stack_result(events: Seq<EventModel>, stack: Seq<Context>) -> Option<Seq<Context>>
    decreases events.len(),
{
    if events.len() == 0 {
        Some(stack)
    } else {
        match opens_context(events[0]) {
            Some(c) => stack_result(events.drop_first(), stack.push(c)),
            None => match closes_context(events[0]) {
                Some(c) => if stack.len() > 0 && stack.last() == c {
                    stack_result(events.drop_first(), stack.drop_last())
                } else {
                    None
                },
                None => stack_result(events.drop_first(), stack),
            },
        }
    }
}

/// How many `item` contexts a stack holds.
pub open spec fn items_on(stack: Seq<Context>) -> nat
    decreases stack.len(),
{
    if stack.len() == 0 {
        0
    } else {
        items_on(stack.drop_last()) + (if stack.last() == Context::Item {
            1nat
        } else {
            0nat
        })
    }
}

proof fn lemma_items_on_push(stack: Seq<Context>, c: Context)
    ensures
        items_on(stack.push(c)) == items_on(stack) + (if c == Context::Item {
            1nat
        } else {
            0nat
        }),
{
    assert(stack.push(c).drop_last() =~= stack);
}

/// The state the machine is in after the events, or how it stopped.
pub open spec fn machine_after(events: Seq<EventModel>, st: StateModel) -> StepOutcome
    decreases events.len(),
{
    if events.len() == 0 {
        StepOutcome::Next(st)
    } else {
        match step(st, events[0]) {
            StepOutcome::Next(st2) => machine_after(events.drop_first(), st2),
            StepOutcome::Done(out) => StepOutcome::Done(out),
            StepOutcome::Fail(e) => StepOutcome::Fail(e),
        }
    }
}

/// The fold of the machine and the result of the parse agree: the
/// parse returns the emitted items of the state the machine reaches,
/// or what it stopped with.
pub proof fn lemma_run_from_via_machine(events: Seq<EventModel>, st: StateModel)
    ensures
        run_from(events, st) == (match machine_after(events, st) {
            StepOutcome::Next(st2) => Ok::<Seq<crate::item::ItemModel>, RssErrorModel>(st2.emitted),
            StepOutcome::Done(out) => Ok(out),
            StepOutcome::Fail(e) => Err(e),
        }),
    decreases events.len(),
{
    if events.len() != 0 {
        match step(st, events[0]) {
            StepOutcome::Next(st2) => {
                lemma_run_from_via_machine(events.drop_first(), st2);
            },
            _ => {},
        }
    }
}

/// Running the machine over a concatenation runs it over the first
/// part, and, where that part leaves it running, over the second from
/// the state the first part reached.
pub proof fn lemma_machine_append(a: Seq<EventModel>, b: Seq<EventModel>, st: StateModel)
    ensures
        machine_after(a + b, st) == (match machine_after(a, st) {
            StepOutcome::Next(st2) => machine_after(b, st2),
            other => other,
        }),
    decreases a.len(),
{
    if a.len() == 0 {
        assert(a + b =~= b);
    } else {
        assert((a + b)[0] == a[0]);
        assert((a + b).drop_first() =~= a.drop_first() + b);
        match step(st, a[0]) {
            StepOutcome::Next(st2) => {
                lemma_machine_append(a.drop_first(), b, st2);
            },
            _ => {},
        }
    }
}

/// Over body events whose recognized tags nest correctly from the
/// machine's stack, the machine never stops: it reaches a state whose
/// stack is what the nesting discipline computes, and it emits one
/// item for each recognized `item` close.
proof fn lemma_body_run(events: Seq<EventModel>, st: StateModel)
    requires
        forall|i: int| 0 <= i < events.len() ==> is_body_event(#[trigger] events[i]),
        stack_result(events, st.stack) is Some,
    ensures
        machine_after(events, st) matches StepOutcome::Next(st2)
            && st2.stack == stack_result(events, st.stack)->0
            && st2.emitted.len() == st.emitted.len() + count_item_closes(events),
    decreases events.len(),
{
    if events.len() != 0 {
        let ev = events[0];
        assert(is_body_event(ev));
        assert(forall|i: int|
            0 <= i < events.drop_first().len() ==> is_body_event(
                #[trigger] events.drop_first()[i],
            )) by {
            assert(forall|i: int|
                0 <= i < events.drop_first().len() ==> events.drop_first()[i] == events[i + 1]);
        }
        match step(st, ev) {
            StepOutcome::Next(st2) => {
                lemma_body_run(events.drop_first(), st2);
            },
            StepOutcome::Done(_) => {
                assert(false);
            },
            StepOutcome::Fail(_) => {
                assert(false);
            },
        }
    }
}

/// Balanced nesting conserves `item` opens and closes: the difference
/// between the two counts is the difference in `item` contexts between
/// the final and the initial stack.
proof fn lemma_stack_item_balance(events: Seq<EventModel>, stack: Seq<Context>)
    requires
        stack_result(events, stack) is Some,
    ensures
        items_on(stack_result(events, stack)->0) + count_item_closes(events) == items_on(stack)
            + count_item_opens(events),
    decreases events.len(),
{
    if events.len() != 0 {
        let ev = events[0];
        match opens_context(ev) {
            Some(c) => {
                lemma_items_on_push(stack, c);
                lemma_stack_item_balance(events.drop_first(), stack.push(c));
            },
            None => match closes_context(ev) {
                Some(c) => {
                    lemma_items_on_push(stack.drop_last(), c);
                    assert(stack.drop_last().push(c) =~= stack);
                    lemma_stack_item_balance(events.drop_first(), stack.drop_last());
                },
                None => {
                    lemma_stack_item_balance(events.drop_first(), stack);
                },
            },
        }
    }
}

/// For a document body whose recognized elements are properly nested
/// and closed, the parse of the body followed by the end-of-document
/// marker succeeds, and the number of items returned equals the number
/// of recognized `item` open/close pairs: as many closes as opens, one
/// emitted item per pair.
pub proof fn theorem_balanced_body_item_count(events: Seq<EventModel>)
    requires
        forall|i: int| 0 <= i < events.len() ==> is_body_event(#[trigger] events[i]),
        stack_result(events, Seq::empty()) == Some(Seq::<Context>::empty()),
    ensures
        parse_events_spec(events.push(EventModel::EndDocument)) matches Ok(items)
            && items.len() == count_item_closes(events),
        count_item_opens(events) == count_item_closes(events),
{
    let with_end = events.push(EventModel::EndDocument);
    assert(with_end =~= events + seq![EventModel::EndDocument]);
    lemma_body_run(events, init_state());
    lemma_machine_append(events, seq![EventModel::EndDocument], init_state());
    lemma_run_from_via_machine(with_end, init_state());
    let st2 = machine_after(events, init_state())->Next_0;
    assert(machine_after(seq![EventModel::EndDocument], st2) == StepOutcome::Done(st2.emitted))
        by {
        assert(seq![EventModel::EndDocument].drop_first() =~= Seq::<EventModel>::empty());
    }
    lemma_stack_item_balance(events, Seq::empty());
}

/// An element that resolves to no recognized context never disturbs
/// the parse: inserting its start or end tag anywhere in the event
/// stream leaves the result unchanged, so character data inside
/// unrecognized markup still joins the enclosing recognized field.
pub proof fn theorem_unrecognized_transparent(
    prefix: Seq<EventModel>,
    ev: EventModel,
    suffix: Seq<EventModel>,
)
    requires
        ev is Start || ev is End,
        opens_context(ev) is None,
        closes_context(ev) is None,
    ensures
        parse_events_spec(prefix + seq![ev] + suffix) == parse_events_spec(prefix + suffix),
{
    assert(prefix + seq![ev] + suffix =~= prefix + (seq![ev] + suffix));
    lemma_machine_append(prefix, seq![ev] + suffix, init_state());
    lemma_machine_append(prefix, suffix, init_state());
    match machine_after(prefix, init_state()) {
        StepOutcome::Next(st) => {
            assert(step(st, ev) == StepOutcome::Next(st));
            assert((seq![ev] + suffix)[0] == ev);
            assert((seq![ev] + suffix).drop_first() =~= suffix);
            assert(machine_after(seq![ev] + suffix, st) == machine_after(suffix, st));
        },
        _ => {},
    }
    lemma_run_from_via_machine(prefix + (seq![ev] + suffix), init_state());
    lemma_run_from_via_machine(prefix + suffix, init_state());
}

/// A recognized closing tag that does not match the innermost open
/// recognized element makes the whole parse fail with a structural
/// error: text is never silently attributed across a mismatched close.
pub proof fn theorem_mismatched_close_fails(events: Seq<EventModel>, i: int, st: StateModel)
    requires
        0 <= i < events.len(),
        machine_after(events.take(i), init_state()) == StepOutcome::Next(st),
        closes_context(events[i]) is Some,
        st.stack.len() == 0 || st.stack.last() != closes_context(events[i])->0,
    ensures
        parse_events_spec(events) matches Err(e)
            && (e is ContextMismatch || e is UnexpectedClose),
        events[i] matches EventModel::End(_, _, row, column) ==> parse_events_spec(events) == Err::<
            Seq<ItemModel>,
            RssErrorModel,
        >(
            if st.stack.len() == 0 {
                RssErrorModel::UnexpectedClose(row, column, closes_context(events[i])->0)
            } else {
                RssErrorModel::ContextMismatch(
                    row,
                    column,
                    st.stack.last(),
                    closes_context(events[i])->0,
                )
            },
        ),
{
    assert(events =~= events.take(i) + events.skip(i));
    lemma_machine_append(events.take(i), events.skip(i), init_state());
    assert(events.skip(i)[0] == events[i]);
    assert(step(st, events[i]) matches StepOutcome::Fail(e) && (e is ContextMismatch
        || e is UnexpectedClose));
    lemma_run_from_via_machine(events, init_state());
}

/// Each character-data fragment is trimmed on its own and appended to
/// the active text field, with nothing inserted between fragments.
pub proof fn theorem_fragment_trimmed_then_appended(draft: ItemModel, text: Seq<char>)
    ensures
        append_fragment(draft, Context::Title, text).title == draft.title + trim_of(text),
        append_fragment(draft, Context::Link, text).link == draft.link + trim_of(text),
        append_fragment(draft, Context::DcCreator, text).author == draft.author + trim_of(text),
        append_fragment(draft, Context::Description, text).description == draft.description
            + trim_of(text),
{
}

/// A Dublin Core date fragment with a valid RFC-3339 value replaces
/// `created` with exactly that instant and touches nothing else; an
/// unparsable one leaves the draft wholly unchanged, raising no error.
pub proof fn theorem_date_fragment(draft: ItemModel, text: Seq<char>)
    ensures
        rfc3339_of(trim_of(text)) matches Some(t) ==> append_fragment(
            draft,
            Context::DcDate,
            text,
        ) == (ItemModel { created: t, ..draft }),
        rfc3339_of(trim_of(text)) is None ==> append_fragment(draft, Context::DcDate, text)
            == draft,
{
}

proof fn lemma_unrecognized_leave_stack(events: Seq<EventModel>, stack: Seq<Context>)
    requires
        forall|i: int|
            0 <= i < events.len() ==> opens_context(#[trigger] events[i]) is None
                && closes_context(events[i]) is None,
    ensures
        stack_result(events, stack) == Some(stack),
        count_item_closes(events) == 0,
    decreases events.len(),
{
    if events.len() != 0 {
        assert(forall|i: int|
            0 <= i < events.drop_first().len() ==> events.drop_first()[i] == events[i + 1]);
        lemma_unrecognized_leave_stack(events.drop_first(), stack);
    }
}

/// A document that holds no recognized element at all yields an empty
/// item list and no error.
pub proof fn theorem_no_recognized_elements(events: Seq<EventModel>)
    requires
        forall|i: int| 0 <= i < events.len() ==> is_body_event(#[trigger] events[i]),
        forall|i: int|
            0 <= i < events.len() ==> opens_context(#[trigger] events[i]) is None
                && closes_context(events[i]) is None,
    ensures
        parse_events_spec(events.push(EventModel::EndDocument)) == Ok::<
            Seq<ItemModel>,
            RssErrorModel,
        >(Seq::empty()),
{
    lemma_unrecognized_leave_stack(events, Seq::empty());
    theorem_balanced_body_item_count(events);
    let with_end = events.push(EventModel::EndDocument);
    assert(parse_events_spec(with_end)->Ok_0 =~= Seq::<ItemModel>::empty());
}

} // verus!
