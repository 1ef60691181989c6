//! Provider-agnostic stream translation.
//!
//! A provider's completion stream is seen here as a sequence of classified
//! items; the translator folds them into the minimal event vocabulary the
//! rest of the system depends on: text deltas, one terminal `Done`, or one
//! terminal `Error`.

use vstd::prelude::*;
use vstd::string::StringExecFns;

verus! {

/// Classification of one item of a provider's completion stream.  Anything
/// that is neither assistant text, the final response, nor a failure (tool
/// invocations, non-text content) is `Other` and produces no event.
#[derive(Debug)]
pub enum ProviderStreamItem {
    /// A fragment of assistant text.
    TextDelta(String),
    /// The provider's final response: the stream completed successfully.
    FinalResponse,
    /// Any other item kind; consumed without producing an event.
    Other,
    /// A failure reported on the underlying stream.
    Failure(String),
}

/// Provider-agnostic stream event: the only vocabulary crossing the
/// provider boundary.
#[derive(Debug, Clone)]
pub enum ChatStreamEvent {
    /// A text fragment from the assistant's response.
    TextDelta(String),
    /// The stream has completed successfully.
    Done,
    /// An error occurred during streaming.
    Error(String),
}

/// Mathematical model of a provider stream item.
pub ghost enum ProviderItemModel {
    TextDelta(Seq<char>),
    FinalResponse,
    Other,
    Failure(Seq<char>),
}

/// Mathematical model of a translated event.
pub ghost enum EventModel {
    TextDelta(Seq<char>),
    Done,
    Error(Seq<char>),
}

impl View for ProviderStreamItem {
    type V = ProviderItemModel;

    open spec fn view(&self) -> ProviderItemModel {
        match self {
            ProviderStreamItem::TextDelta(t) => ProviderItemModel::TextDelta(t@),
            ProviderStreamItem::FinalResponse => ProviderItemModel::FinalResponse,
            ProviderStreamItem::Other => ProviderItemModel::Other,
            ProviderStreamItem::Failure(m) => ProviderItemModel::Failure(m@),
        }
    }
}

impl View for ChatStreamEvent {
    type V = EventModel;

    open spec fn view(&self) -> EventModel {
        match self {
            ChatStreamEvent::TextDelta(t) => EventModel::TextDelta(t@),
            ChatStreamEvent::Done => EventModel::Done,
            ChatStreamEvent::Error(m) => EventModel::Error(m@),
        }
    }
}

/// The total, order-preserving mapping rule for one item: a textual delta
/// becomes `TextDelta`, the final response becomes `Done`, a failure becomes
/// `Error`, and every other kind is dropped.
pub open spec fn translate_item_model(i: ProviderItemModel) -> Option<EventModel> {
    match i {
        ProviderItemModel::TextDelta(t) => Some(EventModel::TextDelta(t)),
        ProviderItemModel::FinalResponse => Some(EventModel::Done),
        ProviderItemModel::Failure(m) => Some(EventModel::Error(m)),
        ProviderItemModel::Other => None,
    }
}

/// Whether an event ends the translated stream.
pub open spec fn is_terminal(e: EventModel) -> bool {
    e is Done || e is Error
}

/// The error text used when a provider stream ends without a terminal item,
/// which is a protocol violation by the provider layer.
pub open spec fn protocol_violation_text() -> Seq<char> {
    "provider stream ended without completion"@
}

/// The whole translated stream: events in item order, cut at the first
/// terminal event; a stream that ends with no terminal item yields an
/// implicit `Error`.
pub open spec fn translate_stream_model(s: Seq<ProviderItemModel>) -> Seq<EventModel>
    decreases s.len(),
{
    if s.len() == 0 {
        seq![EventModel::Error(protocol_violation_text())]
    } else {
        match s[0] {
            ProviderItemModel::TextDelta(t) => seq![EventModel::TextDelta(t)]
                + translate_stream_model(s.skip(1)),
            ProviderItemModel::FinalResponse => seq![EventModel::Done],
            ProviderItemModel::Failure(m) => seq![EventModel::Error(m)],
            ProviderItemModel::Other => translate_stream_model(s.skip(1)),
        }
    }
}

/// Translator totality over single items: every item kind yields exactly the
/// event of the mapping rule, or no event.
pub fn translate_item(item: &ProviderStreamItem) -> (r: Option<ChatStreamEvent>)
    ensures
        match (r, translate_item_model(item@)) {
            (Some(e), Some(em)) => e@ == em,
            (None, None) => true,
            _ => false,
        },
{
    match item {
        ProviderStreamItem::TextDelta(t) => Some(ChatStreamEvent::TextDelta(t.clone())),
        ProviderStreamItem::FinalResponse => Some(ChatStreamEvent::Done),
        ProviderStreamItem::Failure(m) => Some(ChatStreamEvent::Error(m.clone())),
        ProviderStreamItem::Other => None,
    }
}

/// Translate a whole recorded provider stream into the event sequence.
pub fn translate_all(items: &Vec<ProviderStreamItem>) -> (r: Vec<ChatStreamEvent>)
    ensures
        r@.map_values(|e: ChatStreamEvent| e@) == translate_stream_model(
            items@.map_values(|i: ProviderStreamItem| i@),
        ),
{
    let ghost s = items@.map_values(|i: ProviderStreamItem| i@);
    let mut out: Vec<ChatStreamEvent> = Vec::new();
    let mut i: usize = 0;
    proof {
        assert(out@.map_values(|e: ChatStreamEvent| e@) =~= Seq::<EventModel>::empty());
        assert(s.skip(0) =~= s);
        assert(Seq::<EventModel>::empty() + translate_stream_model(s) =~= translate_stream_model(
            s,
        ));
    }
    while i < items.len()
        invariant
            i <= items@.len(),
            s == items@.map_values(|it: ProviderStreamItem| it@),
            translate_stream_model(s) == out@.map_values(|e: ChatStreamEvent| e@)
                + translate_stream_model(s.skip(i as int)),
        decreases items@.len() - i,
    {
        let ghost pre = out@.map_values(|e: ChatStreamEvent| e@);
        proof {
            assert(s.skip(i as int).len() > 0);
            assert(s.skip(i as int)[0] == s[i as int]);
            assert(s.skip(i as int).skip(1) =~= s.skip(i as int + 1));
        }
        match &items[i] {
            ProviderStreamItem::TextDelta(t) => {
                out.push(ChatStreamEvent::TextDelta(t.clone()));
                proof {
                    assert(out@.map_values(|e: ChatStreamEvent| e@) =~= pre.push(
                        EventModel::TextDelta(t@),
                    ));
                    assert(pre.push(EventModel::TextDelta(t@)) =~= pre + seq![
                        EventModel::TextDelta(t@),
                    ]);
                    assert(translate_stream_model(s) =~= out@.map_values(
                        |e: ChatStreamEvent| e@,
                    ) + translate_stream_model(s.skip(i as int + 1)));
                }
            },
            ProviderStreamItem::FinalResponse => {
                out.push(ChatStreamEvent::Done);
                proof {
                    assert(out@.map_values(|e: ChatStreamEvent| e@) =~= pre.push(EventModel::Done));
                    assert(translate_stream_model(s) =~= out@.map_values(
                        |e: ChatStreamEvent| e@,
                    ));
                }
                return out;
            },
            ProviderStreamItem::Failure(m) => {
                out.push(ChatStreamEvent::Error(m.clone()));
                proof {
                    assert(out@.map_values(|e: ChatStreamEvent| e@) =~= pre.push(
                        EventModel::Error(m@),
                    ));
                    assert(translate_stream_model(s) =~= out@.map_values(
                        |e: ChatStreamEvent| e@,
                    ));
                }
                return out;
            },
            ProviderStreamItem::Other => {
            },
        }
        i += 1;
    }
    proof {
        assert(s.skip(i as int) =~= Seq::<ProviderItemModel>::empty());
    }
    out.push(ChatStreamEvent::Error(String::from_str(
        "provider stream ended without completion",
    )));
    proof {
        assert(out@.map_values(|e: ChatStreamEvent| e@) =~= translate_stream_model(s));
    }
    out
}

/// The translated stream always ends in exactly one terminal event (`Done`
/// or `Error`), with no terminal event before it: translation terminates at
/// the first terminal and never leaves a stream without one.
pub proof fn lemma_translation_terminates(s: Seq<ProviderItemModel>)
    ensures
        translate_stream_model(s).len() >= 1,
        is_terminal(translate_stream_model(s).last()),
        forall|i: int|
            0 <= i < translate_stream_model(s).len() - 1 ==> !is_terminal(
                translate_stream_model(s)[i],
            ),
    decreases s.len(),
{
    if s.len() > 0 {
        match s[0] {
            ProviderItemModel::TextDelta(t) => {
                lemma_translation_terminates(s.skip(1));
            },
            ProviderItemModel::Other => {
                lemma_translation_terminates(s.skip(1));
            },
            _ => {},
        }
    }
}

} // verus!
