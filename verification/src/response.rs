//! What an operation hands back to the host: the messages to send on, and
//! what the host hands in when one of them has been answered.

use vstd::prelude::*;
use vstd::string::StringExecFns;
use crate::swaprouter::{ExecuteMsg, ExecuteMsgView};
use crate::types::{Coin, CoinView};

verus! {

/// The id under which every swap of a cycle asks for its answer.
pub const DCA_SWAP_ID: u64 = 1;

/// The id of a message that asks for no answer.
pub const UNUSED_MSG_ID: u64 = 0;

/// When the host is to report back on a message.
#[derive(Clone, Copy, Debug, PartialEq, Eq, Structural)]
pub enum ReplyOn {
    Always,
    Error,
    Success,
    Never,
}

/// A transfer by the bank.
#[derive(Clone, Debug, PartialEq, Eq)]
pub enum BankMsg {
    Send { to_address: String, amount: Vec<Coin> },
}

/// A call of another contract.
#[derive(Clone, Debug, PartialEq, Eq)]
pub enum WasmMsg {
    Execute { contract_addr: String, msg: ExecuteMsg, funds: Vec<Coin> },
}

/// A message for the host to carry out.
#[derive(Clone, Debug, PartialEq, Eq)]
pub enum CosmosMsg {
    Bank(BankMsg),
    Wasm(WasmMsg),
}

/// The model of a [`CosmosMsg`].
pub enum CosmosMsgView {
    Send { to_address: Seq<char>, amount: Seq<CoinView> },
    Execute { contract_addr: Seq<char>, msg: ExecuteMsgView, funds: Seq<CoinView> },
}

impl DeepView for CosmosMsg {
    type V = CosmosMsgView;

    open spec fn deep_view(&self) -> CosmosMsgView {
        match self {
            CosmosMsg::Bank(BankMsg::Send { to_address, amount }) => CosmosMsgView::Send {
                to_address: to_address@,
                amount: amount.deep_view(),
            },
            CosmosMsg::Wasm(WasmMsg::Execute { contract_addr, msg, funds }) => {
                CosmosMsgView::Execute {
                    contract_addr: contract_addr@,
                    msg: msg@,
                    funds: funds.deep_view(),
                }
            },
        }
    }
}

impl View for CosmosMsg {
    type V = CosmosMsgView;

    open spec fn view(&self) -> CosmosMsgView {
        self.deep_view()
    }
}

/// A message together with the way its outcome comes back.
#[derive(Clone, Debug, PartialEq, Eq)]
pub struct SubMsg {
    pub id: u64,
    pub msg: CosmosMsg,
    pub reply_on: ReplyOn,
}

/// The model of a [`SubMsg`].
pub struct SubMsgView {
    pub id: u64,
    pub msg: CosmosMsgView,
    pub reply_on: ReplyOn,
}

impl DeepView for SubMsg {
    type V = SubMsgView;

    open spec fn deep_view(&self) -> SubMsgView {
        SubMsgView { id: self.id, msg: self.msg@, reply_on: self.reply_on }
    }
}

impl View for SubMsg {
    type V = SubMsgView;

    open spec fn view(&self) -> SubMsgView {
        self.deep_view()
    }
}

/// A plain transfer of `amount` to `to_address`, which asks for no answer.
pub open spec fn transfer(to_address: Seq<char>, amount: Seq<CoinView>) -> SubMsgView {
    SubMsgView {
        id: UNUSED_MSG_ID,
        msg: CosmosMsgView::Send { to_address, amount },
        reply_on: ReplyOn::Never,
    }
}

impl SubMsg {
    /// A plain transfer of `amount` to `to_address`, which asks for no
    /// answer.
    pub fn transfer(to_address: String, amount: Vec<Coin>) -> (m: SubMsg)
        ensures
            m@ == transfer(to_address@, amount.deep_view()),
    {
        SubMsg {
            id: UNUSED_MSG_ID,
            msg: CosmosMsg::Bank(BankMsg::Send { to_address, amount }),
            reply_on: ReplyOn::Never,
        }
    }
}

/// A key with its value, as events and responses carry them.
#[derive(Clone, Debug, PartialEq, Eq)]
pub struct Attribute {
    pub key: String,
    pub value: String,
}

/// The model of an [`Attribute`].
pub struct AttributeView {
    pub key: Seq<char>,
    pub value: Seq<char>,
}

impl DeepView for Attribute {
    type V = AttributeView;

    open spec fn deep_view(&self) -> AttributeView {
        AttributeView { key: self.key@, value: self.value@ }
    }
}

impl View for Attribute {
    type V = AttributeView;

    open spec fn view(&self) -> AttributeView {
        self.deep_view()
    }
}

impl Attribute {
    /// The attribute `key` with `value`.
    pub fn new(key: &str, value: &str) -> (a: Attribute)
        ensures
            a@ == (AttributeView { key: key@, value: value@ }),
    {
        Attribute { key: key.to_owned(), value: value.to_owned() }
    }
}

/// What an operation that went through hands back.
#[derive(Clone, Debug, PartialEq, Eq)]
pub struct Response {
    /// For the host to send, in this order.
    pub messages: Vec<SubMsg>,
    pub attributes: Vec<Attribute>,
}

/// The model of a [`Response`].
pub struct ResponseView {
    pub messages: Seq<SubMsgView>,
    pub attributes: Seq<AttributeView>,
}

impl DeepView for Response {
    type V = ResponseView;

    open spec fn deep_view(&self) -> ResponseView {
        ResponseView {
            messages: self.messages.deep_view(),
            attributes: self.attributes.deep_view(),
        }
    }
}

impl View for Response {
    type V = ResponseView;

    open spec fn view(&self) -> ResponseView {
        self.deep_view()
    }
}

impl ResponseView {
    /// The response of `method`, with `messages` to send.
    pub open spec fn of(method: Seq<char>, messages: Seq<SubMsgView>) -> ResponseView {
        ResponseView {
            messages,
            attributes: seq![AttributeView { key: "method"@, value: method }],
        }
    }

    /// The response that says and sends nothing.
    pub open spec fn silent() -> ResponseView {
        ResponseView { messages: Seq::empty(), attributes: Seq::empty() }
    }
}

impl Response {
    /// The response of `method`, with `messages` to send.
    pub fn of(method: &str, messages: Vec<SubMsg>) -> (r: Response)
        ensures
            r@ == ResponseView::of(method@, messages.deep_view()),
    {
        let mut attributes: Vec<Attribute> = Vec::new();
        attributes.push(Attribute::new("method", method));
        let r = Response { messages, attributes };
        assert(r@.attributes =~= ResponseView::of(method@, messages.deep_view()).attributes);
        r
    }

    /// The response that says and sends nothing.
    pub fn silent() -> (r: Response)
        ensures
            r@ == ResponseView::silent(),
    {
        let r = Response { messages: Vec::new(), attributes: Vec::new() };
        assert(r@.messages =~= Seq::empty());
        assert(r@.attributes =~= Seq::empty());
        r
    }
}

/// Something that happened while a message was carried out.
#[derive(Clone, Debug, PartialEq, Eq)]
pub struct Event {
    /// The kind of thing that happened.
    pub ty: String,
    pub attributes: Vec<Attribute>,
}

/// The model of an [`Event`].
pub struct EventView {
    pub ty: Seq<char>,
    pub attributes: Seq<AttributeView>,
}

impl DeepView for Event {
    type V = EventView;

    open spec fn deep_view(&self) -> EventView {
        EventView { ty: self.ty@, attributes: self.attributes.deep_view() }
    }
}

impl View for Event {
    type V = EventView;

    open spec fn view(&self) -> EventView {
        self.deep_view()
    }
}

/// What a message that went through left behind.
#[derive(Clone, Debug, PartialEq, Eq)]
pub struct SubMsgResponse {
    pub events: Vec<Event>,
    pub data: Option<Vec<u8>>,
}

/// The model of a [`SubMsgResponse`].
pub struct SubMsgResponseView {
    pub events: Seq<EventView>,
    pub data: Option<Seq<u8>>,
}

impl DeepView for SubMsgResponse {
    type V = SubMsgResponseView;

    open spec fn deep_view(&self) -> SubMsgResponseView {
        SubMsgResponseView { events: self.events.deep_view(), data: self.data.deep_view() }
    }
}

impl View for SubMsgResponse {
    type V = SubMsgResponseView;

    open spec fn view(&self) -> SubMsgResponseView {
        self.deep_view()
    }
}

/// The first of `events` that is of the kind `ty`.
pub open spec fn first_event(events: Seq<EventView>, ty: Seq<char>) -> Option<EventView>
    decreases events.len(),
{
    if events.len() == 0 {
        None
    } else if events.first().ty == ty {
        Some(events.first())
    } else {
        first_event(events.drop_first(), ty)
    }
}

/// The value of the first of `attributes` that has the key `key`.
pub open spec fn first_value(attributes: Seq<AttributeView>, key: Seq<char>) -> Option<Seq<char>>
    decreases attributes.len(),
{
    if attributes.len() == 0 {
        None
    } else if attributes.first().key == key {
        Some(attributes.first().value)
    } else {
        first_value(attributes.drop_first(), key)
    }
}

/// The place in `events` of the first event of the kind `ty`.
pub fn find_event(events: &Vec<Event>, ty: &str) -> (found: Option<usize>)
    ensures
        match found {
            Some(i) => {
                &&& i < events.len()
                &&& events.deep_view()[i as int].ty == ty@
                &&& forall|j: int| 0 <= j < i ==> (#[trigger] events.deep_view()[j]).ty != ty@
                &&& first_event(events.deep_view(), ty@) == Some(events.deep_view()[i as int])
            },
            None => first_event(events.deep_view(), ty@) is None,
        },
{
    let wanted = String::from_str(ty);
    let ghost view = events.deep_view();
    assert(view.skip(0) =~= view);
    let mut i: usize = 0;
    while i < events.len()
        invariant
            i <= events.len(),
            view == events.deep_view(),
            wanted@ == ty@,
            forall|j: int| 0 <= j < i ==> (#[trigger] view[j]).ty != ty@,
            first_event(view, ty@) == first_event(view.skip(i as int), ty@),
        decreases events.len() - i,
    {
        proof {
            assert(view.skip(i as int).first() == view[i as int]);
            assert(view.skip(i as int).drop_first() =~= view.skip(i + 1));
        }
        if events[i].ty == wanted {
            return Some(i);
        }
        i += 1;
    }
    None
}

/// The value of the first of `attributes` that has the key `key`.
pub fn find_value<'a>(attributes: &'a Vec<Attribute>, key: &str) -> (found: Option<&'a String>)
    ensures
        match found {
            Some(value) => first_value(attributes.deep_view(), key@) == Some(value@),
            None => first_value(attributes.deep_view(), key@) is None,
        },
{
    let wanted = String::from_str(key);
    let ghost view = attributes.deep_view();
    assert(view.skip(0) =~= view);
    let mut i: usize = 0;
    while i < attributes.len()
        invariant
            i <= attributes.len(),
            view == attributes.deep_view(),
            wanted@ == key@,
            first_value(view, key@) == first_value(view.skip(i as int), key@),
        decreases attributes.len() - i,
    {
        proof {
            assert(view.skip(i as int).first() == view[i as int]);
            assert(view.skip(i as int).drop_first() =~= view.skip(i + 1));
        }
        if attributes[i].key == wanted {
            return Some(&attributes[i].value);
        }
        i += 1;
    }
    None
}

/// The host's report on a message that asked for one.
#[derive(Debug, PartialEq, Eq)]
pub struct Reply {
    /// The id that the message was sent under.
    pub id: u64,
    /// What the message left behind, or the text of its failure.
    pub result: Result<SubMsgResponse, String>,
}

} // verus!
