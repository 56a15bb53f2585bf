//! The messages that two devices exchange, and their form on the wire.
//!
//! A message travels as a JSON text: a string for a message without payload,
//! and otherwise an object with a single member, whose name is the tag and
//! whose value is the payload.

use vstd::prelude::*;
use vstd::string::*;
use vstd::std_specs::hash::spec_keys_iter;
use vstd::std_specs::iter::IteratorSpec;
use std::collections::HashMap;
use crate::error::Error;
use crate::ident::{hyphenated_lower, hyphenated_text, lower_digits, parsed_identifier, read_identifier};
use crate::json::{member, member_of, parse, parsed_json, quote, quoted, reads, text_member, text_member_of, Json};

verus! {

broadcast use vstd::std_specs::hash::group_hash_axioms;

/// One entry of a shared plan.
#[derive(Debug, Clone, PartialEq, Eq)]
pub struct Plan {
    pub title: String,
    pub body: String,
}

/// The plans that two devices keep in common, by identifier, and the one that
/// is selected.
#[derive(Debug, Clone, PartialEq, Eq)]
pub struct Plans {
    pub selected_plan: Option<u128>,
    pub plans: HashMap<u128, Plan>,
}

/// What one device tells the other.
#[derive(Debug, Clone, PartialEq, Eq)]
pub enum Message {
    /// A note that is shown once.
    Disposable(String),
    /// A note that is passed while the devices are held back to back.
    BackToBack(String),
    /// A check-in that keeps a moment.
    Seal(String),
    /// The sender's plans.
    PlanSync(Plans),
    /// Nothing to say: tells the peer only that the sender is listening.
    Empty,
}

/// A [`Plan`] as mathematics.
pub struct PlanView {
    pub title: Seq<char>,
    pub body: Seq<char>,
}

/// [`Plans`] as mathematics.
pub struct PlansView {
    pub selected_plan: Option<u128>,
    pub plans: Map<u128, PlanView>,
}

/// A [`Message`] as mathematics.
pub enum MessageView {
    Disposable(Seq<char>),
    BackToBack(Seq<char>),
    Seal(Seq<char>),
    PlanSync(PlansView),
    Empty,
}

impl View for Plan {
    type V = PlanView;

    open spec fn view(&self) -> PlanView {
        PlanView { title: self.title@, body: self.body@ }
    }
}

/// The plans of a map, each as mathematics.
pub open spec fn plan_views(plans: Map<u128, Plan>) -> Map<u128, PlanView> {
    plans.map_values(|p: Plan| p@)
}

impl View for Plans {
    type V = PlansView;

    open spec fn view(&self) -> PlansView {
        PlansView {
            selected_plan: self.selected_plan,
            plans: plan_views(self.plans@),
        }
    }
}

impl View for Message {
    type V = MessageView;

    open spec fn view(&self) -> MessageView {
        match self {
            Message::Disposable(text) => MessageView::Disposable(text@),
            Message::BackToBack(text) => MessageView::BackToBack(text@),
            Message::Seal(text) => MessageView::Seal(text@),
            Message::PlanSync(plans) => MessageView::PlanSync(plans@),
            Message::Empty => MessageView::Empty,
        }
    }
}

/// The wire form of an identifier: its lower-case hyphenated text as a
/// string literal.
pub open spec fn identifier_text(id: u128) -> Seq<char> {
    quoted(hyphenated_text(id, lower_digits()))
}

/// The wire form of one plan.
pub open spec fn plan_text(plan: PlanView) -> Seq<char> {
    "{\"title\":"@ + quoted(plan.title) + ",\"body\":"@ + quoted(plan.body) + "}"@
}

/// The wire form of the plans named by `order`, one member each, with commas
/// between them.
pub open spec fn members_text(plans: Map<u128, PlanView>, order: Seq<u128>) -> Seq<char>
    decreases order.len(),
{
    if order.len() == 0 {
        Seq::empty()
    } else {
        let head = members_text(plans, order.drop_last());
        let comma = if order.len() == 1 {
            Seq::empty()
        } else {
            ","@
        };
        head + comma + identifier_text(order.last()) + ":"@ + plan_text(plans[order.last()])
    }
}

/// The wire form of the selected plan: `null` where none is selected.
pub open spec fn selected_text(selected: Option<u128>) -> Seq<char> {
    match selected {
        None => "null"@,
        Some(id) => identifier_text(id),
    }
}

/// The wire form of a set of plans, its members written in `order`.
pub open spec fn plans_text(plans: PlansView, order: Seq<u128>) -> Seq<char> {
    "{\"selected_plan\":"@ + selected_text(plans.selected_plan) + ",\"plans\":{"@ + members_text(
        plans.plans,
        order,
    ) + "}}"@
}

/// The wire form of a message. `order` matters to `PlanSync` alone: it is the
/// order in which the plans are written.
pub open spec fn wire_text(message: MessageView, order: Seq<u128>) -> Seq<char> {
    match message {
        MessageView::Disposable(text) => "{\"Disposable\":"@ + quoted(text) + "}"@,
        MessageView::BackToBack(text) => "{\"BackToBack\":"@ + quoted(text) + "}"@,
        MessageView::Seal(text) => "{\"Seal\":"@ + quoted(text) + "}"@,
        MessageView::PlanSync(plans) => "{\"PlanSync\":"@ + plans_text(plans, order) + "}"@,
        MessageView::Empty => "\"Empty\""@,
    }
}

/// Whether `order` names every plan of `plans` once.
pub open spec fn walks(order: Seq<u128>, plans: PlansView) -> bool {
    order.no_duplicates() && order.to_set() == plans.plans.dom()
}

/// Whether `order` is an order in which `message` may be written: for
/// `PlanSync` one that names every plan once, and the empty one otherwise.
pub open spec fn writes(order: Seq<u128>, message: MessageView) -> bool {
    match message {
        MessageView::PlanSync(plans) => walks(order, plans),
        _ => order == Seq::<u128>::empty(),
    }
}

/// The identifiers of `plans` in the order in which the map hands them out.
fn key_order(plans: &HashMap<u128, Plan>) -> (keys: Vec<u128>)
    ensures
        keys@.no_duplicates(),
        keys@.to_set() == plans@.dom(),
{
    let mut keys: Vec<u128> = Vec::new();
    for key in it: plans.keys()
        invariant
            keys@.len() == it.index(),
            it.seq() == spec_keys_iter(plans).remaining(),
            forall|j: int| 0 <= j < keys@.len() ==> keys@[j] == *it.seq()[j],
    {
        keys.push(*key);
    }
    assert(keys@ =~= spec_keys_iter(plans).remaining().unref());
    keys
}

impl Plan {
    /// Appends the wire form of this plan to `out`.
    fn write(&self, out: &mut String)
        ensures
            final(out)@ == old(out)@ + plan_text(self@),
    {
        let title = quote(self.title.as_str());
        let body = quote(self.body.as_str());
        out.append("{\"title\":");
        out.append(title.as_str());
        out.append(",\"body\":");
        out.append(body.as_str());
        out.append("}");
        assert(out@ =~= old(out)@ + plan_text(self@));
    }
}

impl Plans {
    /// No plans, and none selected.
    pub fn new() -> (r: Plans)
        ensures
            r@.selected_plan is None,
            r@.plans == Map::<u128, PlanView>::empty(),
    {
        let r = Plans { selected_plan: None, plans: HashMap::new() };
        assert(r@.plans =~= Map::<u128, PlanView>::empty());
        r
    }

    /// Appends the wire form of these plans to `out` and says in which order
    /// the plans were written.
    fn write(&self, out: &mut String) -> (order: Ghost<Seq<u128>>)
        ensures
            walks(order@, self@),
            final(out)@ == old(out)@ + plans_text(self@, order@),
    {
        let keys = key_order(&self.plans);
        out.append("{\"selected_plan\":");
        match self.selected_plan {
            None => {
                out.append("null");
            },
            Some(id) => {
                let text = hyphenated_lower(id);
                let literal = quote(text.as_str());
                out.append(literal.as_str());
            },
        }
        out.append(",\"plans\":{");
        let ghost head = out@;
        assert(head =~= old(out)@ + "{\"selected_plan\":"@ + selected_text(self@.selected_plan)
            + ",\"plans\":{"@);
        let mut i: usize = 0;
        while i < keys.len()
            invariant
                i <= keys.len(),
                keys@.no_duplicates(),
                keys@.to_set() == self.plans@.dom(),
                out@ == head + members_text(self@.plans, keys@.take(i as int)),
            decreases keys.len() - i,
        {
            let key = keys[i];
            assert(keys@.to_set().contains(key));
            assert(self.plans@.contains_key(key));
            if i > 0 {
                out.append(",");
            }
            let text = hyphenated_lower(key);
            let literal = quote(text.as_str());
            out.append(literal.as_str());
            out.append(":");
            match self.plans.get(&key) {
                Some(plan) => {
                    plan.write(out);
                    assert(self@.plans[key] == plan@);
                },
                None => {},
            }
            proof {
                let next = keys@.take(i + 1);
                assert(next.drop_last() =~= keys@.take(i as int));
                assert(next.last() == key);
                assert(out@ =~= head + members_text(self@.plans, next));
            }
            i += 1;
        }
        out.append("}}");
        proof {
            assert(keys@.take(keys@.len() as int) =~= keys@);
            assert(self@.plans.dom() =~= self.plans@.dom());
            assert(out@ =~= old(out)@ + plans_text(self@, keys@));
        }
        Ghost(keys@)
    }
}

impl Message {
    /// The wire form of this message. A `PlanSync` lists its plans in the
    /// order in which the map hands them out, which is not fixed; every other
    /// message has one wire form.
    pub fn to_string(&self) -> (r: String)
        ensures
            exists|order: Seq<u128>| writes(order, self@) && r@ == #[trigger] wire_text(self@, order),
            !(self@ is PlanSync) ==> r@ == wire_text(self@, Seq::empty()),
    {
        let mut out = String::new();
        let ghost mut order: Seq<u128> = Seq::empty();
        match self {
            Message::Disposable(text) => {
                let literal = quote(text.as_str());
                out.append("{\"Disposable\":");
                out.append(literal.as_str());
                out.append("}");
            },
            Message::BackToBack(text) => {
                let literal = quote(text.as_str());
                out.append("{\"BackToBack\":");
                out.append(literal.as_str());
                out.append("}");
            },
            Message::Seal(text) => {
                let literal = quote(text.as_str());
                out.append("{\"Seal\":");
                out.append(literal.as_str());
                out.append("}");
            },
            Message::PlanSync(plans) => {
                out.append("{\"PlanSync\":");
                let walked = plans.write(&mut out);
                out.append("}");
                proof {
                    order = walked@;
                }
            },
            Message::Empty => {
                out.append("\"Empty\"");
            },
        }
        assert(out@ =~= wire_text(self@, order));
        out
    }
}

/// The complaint about a document whose tag names no message.
pub open spec fn unknown_tag_text() -> Seq<char> {
    "unknown message tag"@
}

/// The complaint about a document that has a known tag and not the payload
/// that belongs to it, or that has no tag at all.
pub open spec fn malformed_text() -> Seq<char> {
    "malformed message"@
}

/// Whether `tag` names a message.
pub open spec fn known_tag(tag: Seq<char>) -> bool {
    tag == "Disposable"@ || tag == "BackToBack"@ || tag == "Seal"@ || tag == "PlanSync"@ || tag
        == "Empty"@
}

/// The plan that a document stands for: an object with the strings `title`
/// and `body`.
pub open spec fn plan_of(doc: Json) -> Option<PlanView> {
    match doc {
        Json::Object(members) => match (
            text_member_of(members@, "title"@),
            text_member_of(members@, "body"@),
        ) {
            (Some(title), Some(body)) => Some(PlanView { title, body }),
            _ => None,
        },
        _ => None,
    }
}

/// The plans that the members of an object stand for: each name is an
/// identifier and each value a plan. Where two names read as one identifier
/// the later member counts.
pub open spec fn plan_map_of(members: Seq<(String, Json)>) -> Option<Map<u128, PlanView>>
    decreases members.len(),
{
    if members.len() == 0 {
        Some(Map::empty())
    } else {
        match (
            plan_map_of(members.drop_last()),
            parsed_identifier(members.last().0@),
            plan_of(members.last().1),
        ) {
            (Some(rest), Some(id), Some(plan)) => Some(rest.insert(id, plan)),
            _ => None,
        }
    }
}

/// The selection that the members of an object stand for: none where
/// `selected_plan` is absent or `null`, and else the identifier that its
/// string reads as.
pub open spec fn selected_of(members: Seq<(String, Json)>) -> Option<Option<u128>> {
    match member_of(members, "selected_plan"@) {
        None => Some(None),
        Some(Json::Null) => Some(None),
        Some(Json::Text(text)) => match parsed_identifier(text@) {
            Some(id) => Some(Some(id)),
            None => None,
        },
        Some(_) => None,
    }
}

/// The plans that a document stands for: an object with a selection and the
/// object `plans`.
pub open spec fn plans_of(doc: Json) -> Option<PlansView> {
    match doc {
        Json::Object(members) => match (selected_of(members@), member_of(members@, "plans"@)) {
            (Some(selected_plan), Some(Json::Object(entries))) => match plan_map_of(entries@) {
                Some(plans) => Some(PlansView { selected_plan, plans }),
                None => None,
            },
            _ => None,
        },
        _ => None,
    }
}

/// The message that a tag and its payload stand for.
pub open spec fn tagged_of(tag: Seq<char>, payload: Json) -> Result<MessageView, Seq<char>> {
    if tag == "Disposable"@ {
        match payload {
            Json::Text(text) => Ok(MessageView::Disposable(text@)),
            _ => Err(malformed_text()),
        }
    } else if tag == "BackToBack"@ {
        match payload {
            Json::Text(text) => Ok(MessageView::BackToBack(text@)),
            _ => Err(malformed_text()),
        }
    } else if tag == "Seal"@ {
        match payload {
            Json::Text(text) => Ok(MessageView::Seal(text@)),
            _ => Err(malformed_text()),
        }
    } else if tag == "PlanSync"@ {
        match plans_of(payload) {
            Some(plans) => Ok(MessageView::PlanSync(plans)),
            None => Err(malformed_text()),
        }
    } else if tag == "Empty"@ {
        match payload {
            Json::Null => Ok(MessageView::Empty),
            _ => Err(malformed_text()),
        }
    } else {
        Err(unknown_tag_text())
    }
}

/// The message that a document stands for, or the complaint about it. A
/// string is a tag without payload, which only `Empty` may be; an object with
/// one member is a tag with its payload; nothing else is a message.
pub open spec fn decoded(doc: Json) -> Result<MessageView, Seq<char>> {
    match doc {
        Json::Text(tag) => if tag@ == "Empty"@ {
            Ok(MessageView::Empty)
        } else if known_tag(tag@) {
            Err(malformed_text())
        } else {
            Err(unknown_tag_text())
        },
        Json::Object(members) => if members@.len() == 1 {
            tagged_of(members@[0].0@, members@[0].1)
        } else {
            Err(malformed_text())
        },
        _ => Err(malformed_text()),
    }
}

/// The message that arrives with `bytes`, or the complaint about them: that
/// of the JSON reader where they are no JSON text, and that of the envelope
/// otherwise.
pub open spec fn received(bytes: Seq<u8>) -> Result<MessageView, Seq<char>> {
    match parsed_json(bytes) {
        Ok(doc) => decoded(doc),
        Err(text) => Err(text),
    }
}

/// Whether `r` reports exactly what `expected` says: the same message, or
/// `InvalidMessage` with the same complaint.
pub open spec fn reports(r: Result<Message, Error>, expected: Result<MessageView, Seq<char>>) -> bool {
    match r {
        Ok(message) => expected == Ok::<MessageView, Seq<char>>(message@),
        Err(Error::InvalidMessage(text)) => expected == Err::<MessageView, Seq<char>>(text@),
        Err(_) => false,
    }
}

fn malformed<T>() -> (r: Result<T, Error>)
    ensures
        r matches Err(Error::InvalidMessage(text)) && text@ == malformed_text(),
{
    Err(Error::InvalidMessage("malformed message".to_owned()))
}

fn unknown_tag<T>() -> (r: Result<T, Error>)
    ensures
        r matches Err(Error::InvalidMessage(text)) && text@ == unknown_tag_text(),
{
    Err(Error::InvalidMessage("unknown message tag".to_owned()))
}

impl Plan {
    /// Reads a plan from a document.
    pub fn from_json(doc: &Json) -> (r: Option<Plan>)
        ensures
            match r {
                Some(plan) => plan_of(*doc) == Some(plan@),
                None => plan_of(*doc) is None,
            },
    {
        match doc {
            Json::Object(members) => {
                let title = text_member(members, "title");
                let body = text_member(members, "body");
                match (title, body) {
                    (Some(title), Some(body)) => Some(Plan { title, body }),
                    _ => None,
                }
            },
            _ => None,
        }
    }
}

impl Plans {
    /// Reads the members of the object `plans`.
    fn entries_from_json(members: &Vec<(String, Json)>) -> (r: Option<HashMap<u128, Plan>>)
        ensures
            match r {
                Some(plans) => plan_map_of(members@) == Some(plan_views(plans@)),
                None => plan_map_of(members@) is None,
            },
    {
        let mut plans: HashMap<u128, Plan> = HashMap::new();
        assert(plan_views(plans@) =~= Map::<u128, PlanView>::empty());
        let mut i: usize = 0;
        while i < members.len()
            invariant
                i <= members.len(),
                plan_map_of(members@.take(i as int)) == Some(plan_views(plans@)),
            decreases members.len() - i,
        {
            proof {
                assert(members@.take(i + 1).drop_last() =~= members@.take(i as int));
            }
            let id = read_identifier(members[i].0.as_str());
            let plan = Plan::from_json(&members[i].1);
            match (id, plan) {
                (Some(id), Some(plan)) => {
                    let ghost before = plans@;
                    plans.insert(id, plan);
                    assert(plan_views(plans@) =~= plan_views(before).insert(id, plan@));
                },
                _ => {
                    proof {
                        lemma_plan_map_fails(members@, i as int);
                    }
                    return None;
                },
            }
            i += 1;
        }
        proof {
            assert(members@.take(members@.len() as int) =~= members@);
        }
        Some(plans)
    }

    /// Reads plans from a document.
    pub fn from_json(doc: &Json) -> (r: Option<Plans>)
        ensures
            match r {
                Some(plans) => plans_of(*doc) == Some(plans@),
                None => plans_of(*doc) is None,
            },
    {
        match doc {
            Json::Object(members) => {
                let selected_plan = match member(members, "selected_plan") {
                    None => None,
                    Some(Json::Null) => None,
                    Some(Json::Text(text)) => match read_identifier(text.as_str()) {
                        Some(id) => Some(id),
                        None => {
                            return None;
                        },
                    },
                    Some(_) => {
                        return None;
                    },
                };
                match member(members, "plans") {
                    Some(Json::Object(entries)) => match Plans::entries_from_json(entries) {
                        Some(plans) => Some(Plans { selected_plan, plans }),
                        None => None,
                    },
                    _ => None,
                }
            },
            _ => None,
        }
    }
}

/// Once a member is no plan, the members up to it and any that follow are no
/// plans either.
proof fn lemma_plan_map_fails(members: Seq<(String, Json)>, i: int)
    requires
        0 <= i < members.len(),
        parsed_identifier(members[i].0@) is None || plan_of(members[i].1) is None,
    ensures
        plan_map_of(members) is None,
    decreases members.len(),
{
    if i < members.len() - 1 {
        lemma_plan_map_fails(members.drop_last(), i);
    }
}

impl Message {
    /// Reads the message that a tag and its payload stand for.
    fn tagged_from_json(tag: &String, payload: &Json) -> (r: Result<Message, Error>)
        ensures
            reports(r, tagged_of(tag@, *payload)),
    {
        if reads(tag, "Disposable") {
            match payload {
                Json::Text(text) => Ok(Message::Disposable(text.clone())),
                _ => malformed(),
            }
        } else if reads(tag, "BackToBack") {
            match payload {
                Json::Text(text) => Ok(Message::BackToBack(text.clone())),
                _ => malformed(),
            }
        } else if reads(tag, "Seal") {
            match payload {
                Json::Text(text) => Ok(Message::Seal(text.clone())),
                _ => malformed(),
            }
        } else if reads(tag, "PlanSync") {
            match Plans::from_json(payload) {
                Some(plans) => Ok(Message::PlanSync(plans)),
                None => malformed(),
            }
        } else if reads(tag, "Empty") {
            match payload {
                Json::Null => Ok(Message::Empty),
                _ => malformed(),
            }
        } else {
            unknown_tag()
        }
    }

    /// Reads a message from a document. A document that is no message is
    /// reported as `InvalidMessage`, with a complaint that tells an unknown
    /// tag from a known tag with the wrong payload.
    pub fn from_json(doc: &Json) -> (r: Result<Message, Error>)
        ensures
            reports(r, decoded(*doc)),
    {
        match doc {
            Json::Text(tag) => {
                if reads(tag, "Empty") {
                    Ok(Message::Empty)
                } else if reads(tag, "Disposable") || reads(tag, "BackToBack") || reads(tag, "Seal")
                    || reads(tag, "PlanSync") {
                    malformed()
                } else {
                    unknown_tag()
                }
            },
            Json::Object(members) => {
                if members.len() == 1 {
                    Message::tagged_from_json(&members[0].0, &members[0].1)
                } else {
                    malformed()
                }
            },
            _ => malformed(),
        }
    }

    /// Reads a message from the bytes that arrived. Bytes that are no JSON
    /// text are reported as `InvalidMessage` with the reader's complaint.
    pub fn decode(bytes: &[u8]) -> (r: Result<Message, Error>)
        ensures
            reports(r, received(bytes@)),
    {
        match parse(bytes) {
            Ok(doc) => Message::from_json(&doc),
            Err(text) => Err(Error::InvalidMessage(text)),
        }
    }
}

} // verus!
