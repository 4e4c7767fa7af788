//! Events with their attributes, and messages for the chain to run.

use vstd::prelude::*;

use crate::view::{lemma_views_add, lemma_views_push, views};

verus! {

/// A key with its value, as an event carries them.
#[derive(Debug, PartialEq, Eq)]
pub struct Attribute {
    pub key: String,
    pub value: String,
}

pub struct AttributeView {
    pub key: Seq<char>,
    pub value: Seq<char>,
}

impl View for Attribute {
    type V = AttributeView;

    open spec fn view(&self) -> AttributeView {
        AttributeView { key: self.key@, value: self.value@ }
    }
}

impl Clone for Attribute {
    fn clone(&self) -> (r: Self)
        ensures
            r@ == self@,
    {
        Attribute { key: self.key.clone(), value: self.value.clone() }
    }
}

impl Attribute {
    pub fn new(key: &str, value: String) -> (r: Self)
        ensures
            r@ == (AttributeView { key: key@, value: value@ }),
    {
        Attribute { key: key.to_owned(), value }
    }
}

/// A named list of attributes.
#[derive(Debug, PartialEq, Eq)]
pub struct Event {
    pub ty: String,
    pub attributes: Vec<Attribute>,
}

pub struct EventView {
    pub ty: Seq<char>,
    pub attributes: Seq<AttributeView>,
}

impl View for Event {
    type V = EventView;

    open spec fn view(&self) -> EventView {
        EventView { ty: self.ty@, attributes: views(self.attributes@) }
    }
}

impl EventView {
    /// The event with one more attribute at its end.
    pub open spec fn with(self, key: Seq<char>, value: Seq<char>) -> EventView {
        EventView { ty: self.ty, attributes: self.attributes.push(AttributeView { key, value }) }
    }

    /// The event with `memo` as one more attribute, unless the memo is empty.
    pub open spec fn with_memo(self, memo: Seq<char>) -> EventView {
        if memo.len() == 0 {
            self
        } else {
            self.with(crate::protocol::ATTR_MEMO@, memo)
        }
    }

    /// The event with more attributes at its end, in their order.
    pub open spec fn with_all(self, more: Seq<AttributeView>) -> EventView {
        EventView { ty: self.ty, attributes: self.attributes + more }
    }
}

pub open spec fn event(ty: Seq<char>) -> EventView {
    EventView { ty, attributes: Seq::empty() }
}

impl Event {
    /// An event of the given name without attributes.
    pub fn new(ty: &str) -> (r: Self)
        ensures
            r@ == event(ty@),
    {
        let r = Event { ty: ty.to_owned(), attributes: Vec::new() };
        assert(r@.attributes =~= Seq::empty());
        r
    }

    pub fn add_attribute(self, key: &str, value: String) -> (r: Self)
        ensures
            r@ == self@.with(key@, value@),
    {
        let mut attributes = self.attributes;
        let attribute = Attribute::new(key, value);
        proof {
            lemma_views_push(attributes@, attribute);
        }
        attributes.push(attribute);
        Event { ty: self.ty, attributes }
    }

    pub fn add_attributes(self, more: Vec<Attribute>) -> (r: Self)
        ensures
            r@ == self@.with_all(views(more@)),
    {
        let mut attributes = self.attributes;
        let mut more = more;
        proof {
            lemma_views_add(attributes@, more@);
        }
        attributes.append(&mut more);
        Event { ty: self.ty, attributes }
    }
}

/// When the chain calls back about a message it ran.
#[derive(Clone, Copy, PartialEq, Eq, Structural, Debug)]
pub enum ReplyOn {
    Always,
    Error,
    Success,
    Never,
}

/// A message for the chain to run, with the identifier under which it
/// reports back.
#[derive(Debug, PartialEq, Eq)]
pub struct SubMsg<M> {
    pub id: u64,
    pub payload: Vec<u8>,
    pub msg: M,
    pub reply_on: ReplyOn,
}

pub struct SubMsgView<M> {
    pub id: u64,
    pub payload: Seq<u8>,
    pub msg: M,
    pub reply_on: ReplyOn,
}

impl<M> View for SubMsg<M> {
    type V = SubMsgView<M>;

    open spec fn view(&self) -> SubMsgView<M> {
        SubMsgView { id: self.id, payload: self.payload@, msg: self.msg, reply_on: self.reply_on }
    }
}

/// The message that reports back under `id` in the cases `reply_on`.
pub open spec fn sub_msg<M>(msg: M, id: u64, reply_on: ReplyOn) -> SubMsgView<M> {
    SubMsgView { id, payload: Seq::empty(), msg, reply_on }
}

/// Each message as one that reports back under `id` in the cases `reply_on`.
pub open spec fn sub_msgs<M>(msgs: Seq<M>, id: u64, reply_on: ReplyOn) -> Seq<SubMsgView<M>> {
    msgs.map_values(|msg: M| sub_msg(msg, id, reply_on))
}

/// Each message as one that never reports back.
pub open spec fn plain_msgs<M>(msgs: Seq<M>) -> Seq<SubMsgView<M>> {
    sub_msgs(msgs, 0, ReplyOn::Never)
}

/// Each message as one that reports back under `id` when it fails.
pub open spec fn guarded_msgs<M>(msgs: Seq<M>, id: u64) -> Seq<SubMsgView<M>> {
    sub_msgs(msgs, id, ReplyOn::Error)
}

impl<M> SubMsg<M> {
    /// A message that never reports back.
    pub fn new(msg: M) -> (r: Self)
        ensures
            r@ == sub_msg(msg, 0, ReplyOn::Never),
    {
        SubMsg { id: 0, payload: Vec::new(), msg, reply_on: ReplyOn::Never }
    }

    /// A message that reports back under `id` whatever comes of it.
    pub fn reply_always(msg: M, id: u64) -> (r: Self)
        ensures
            r@ == sub_msg(msg, id, ReplyOn::Always),
    {
        SubMsg { id, payload: Vec::new(), msg, reply_on: ReplyOn::Always }
    }

    /// A message that reports back under `id` when it fails.
    pub fn reply_on_error(msg: M, id: u64) -> (r: Self)
        ensures
            r@ == sub_msg(msg, id, ReplyOn::Error),
    {
        SubMsg { id, payload: Vec::new(), msg, reply_on: ReplyOn::Error }
    }
}

/// The messages of `msgs` appended to `to` in their order, each as one that
/// reports back under `id` in the cases `reply_on`.
pub fn push_sub_msgs<M>(to: &mut Vec<SubMsg<M>>, msgs: Vec<M>, id: u64, reply_on: ReplyOn)
    ensures
        views(final(to)@) == views(old(to)@) + sub_msgs(msgs@, id, reply_on),
{
    let ghost all = msgs@;
    let mut msgs = msgs;
    let mut rest: Vec<M> = Vec::new();
    // taken from the back, so that each message is moved, not copied
    while msgs.len() > 0
        invariant
            all == msgs@ + rest@.reverse(),
        decreases msgs.len(),
    {
        let msg = msgs.pop().unwrap();
        assert(all =~= msgs@ + rest@.push(msg).reverse());
        rest.push(msg);
    }
    assert(all =~= rest@.reverse());
    assert(all.skip(0) =~= all);
    assert(sub_msgs(all.take(0), id, reply_on) =~= Seq::empty());
    assert(views(to@) =~= views(to@) + Seq::empty());
    let ghost start = to@;
    let ghost n = rest@.len() as int;
    while rest.len() > 0
        invariant
            n == all.len(),
            rest@.len() <= n,
            rest@.reverse() == all.skip(n - rest@.len()),
            views(to@) == views(start) + sub_msgs(all.take(n - rest@.len()), id, reply_on),
        decreases rest.len(),
    {
        let ghost k = n - rest@.len();
        let ghost before = rest@;
        let msg = rest.pop().unwrap();
        let sub = SubMsg { id, payload: Vec::new(), msg, reply_on };
        proof {
            assert(msg == before.reverse()[0]);
            assert(msg == all[k]);
            assert(rest@.reverse() =~= before.reverse().skip(1));
            assert(all.skip(k).skip(1) =~= all.skip(k + 1));
            assert(all.take(k + 1) =~= all.take(k).push(msg));
            assert(sub_msgs(all.take(k + 1), id, reply_on) =~= sub_msgs(all.take(k), id, reply_on).push(sub@));
            lemma_views_push(to@, sub);
        }
        to.push(sub);
    }
    assert(all.take(n) =~= all);
}

/// The messages of `msgs` appended to `to`, each as one that never reports
/// back.
pub fn push_messages<M>(to: &mut Vec<SubMsg<M>>, msgs: Vec<M>)
    ensures
        views(final(to)@) == views(old(to)@) + plain_msgs(msgs@),
{
    push_sub_msgs(to, msgs, 0, ReplyOn::Never)
}

} // verus!
