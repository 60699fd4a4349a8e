//! The handle of one mouse: who it is, which variant it is, and the battery
//! level and polling rate that it last reported.
//!
//! The two readings are caches. They stay as they are until a refresh has
//! run to its end, and a refresh replaces the reading as a whole. A refresh
//! is begun with `get_battery` or `get_polling_rate`; the caller then
//! carries out each `request` on the device and hands the reply to `feed`
//! until no request is left.

use vstd::prelude::*;
use crate::exchange::{
    feature_replies,
    lemma_feature_exchange_decodes,
    lemma_raw_exchange_is_strict,
    raw_replies,
    Exchange,
    ExchangeView,
    IoError,
    Reply,
    Request,
    RequestView,
    Stage,
};
use crate::locate::LocateError;
use crate::product::{Protocol, WLMouseProduct};
use crate::report::{
    decode_polling_rate,
    polling_rate_of,
    Query,
    FEATURE_REPORT_LEN,
    RAW_REPORT_LEN,
    VALUE_OFFSET,
};

verus! {

/// A mouse handle as a mathematical value.
pub struct MouseView {
    pub vendor_id: u16,
    pub product_id: u16,
    pub battery: u8,
    pub polling_rate: u16,
    pub product: WLMouseProduct,
    /// The refresh in progress, if there is one.
    pub exchange: Option<ExchangeView>,
}

impl MouseView {
    /// The handle of a newly found mouse: nothing read yet, nothing in
    /// progress.
    pub open spec fn created(vendor_id: u16, product_id: u16) -> MouseView {
        MouseView {
            vendor_id,
            product_id,
            battery: 0,
            polling_rate: 0,
            product: WLMouseProduct::of_id(product_id),
            exchange: None,
        }
    }

    /// Whether the mouse's protocol has a wire sequence for a query.
    pub open spec fn supports(self, query: Query) -> bool {
        match self.product.protocol_of() {
            Some(protocol) => ExchangeView::start(protocol, query) is Some,
            None => false,
        }
    }

    /// The handle with a refresh for `query` begun. A refresh that was in
    /// progress is given up.
    pub open spec fn asking(self, query: Query) -> MouseView {
        MouseView {
            exchange: match self.product.protocol_of() {
                Some(protocol) => ExchangeView::start(protocol, query),
                None => None,
            },
            ..self
        }
    }

    /// The request that is outstanding; none where no refresh is in
    /// progress.
    pub open spec fn pending(self) -> Option<RequestView> {
        match self.exchange {
            Some(exchange) => exchange.pending(),
            None => None,
        }
    }

    /// The handle with the value byte of a decoded response stored in the
    /// cache that the query belongs to.
    pub open spec fn storing(self, query: Query, raw: u8) -> MouseView {
        match query {
            Query::Battery => MouseView { battery: raw, exchange: None, ..self },
            Query::PollingRate => MouseView {
                polling_rate: polling_rate_of(raw),
                exchange: None,
                ..self
            },
        }
    }

    /// The handle after the transport's reply. Only the reply that decodes
    /// the response touches a cache; an aborted refresh leaves both as they
    /// were.
    pub open spec fn after(self, reply: Reply) -> MouseView {
        match self.exchange {
            Some(exchange) => {
                let next = exchange.after(reply);
                match next.stage {
                    Stage::Decoded { raw } => self.storing(next.query, raw),
                    Stage::Aborted => MouseView { exchange: None, ..self },
                    _ => MouseView { exchange: Some(next), ..self },
                }
            },
            None => self,
        }
    }

    /// Whether `reply` makes the refresh in progress fail.
    pub open spec fn fails_on(self, reply: Reply) -> bool {
        self.exchange matches Some(exchange) && exchange.after(reply).stage is Aborted
    }

    /// The handle after a series of replies, oldest first.
    pub open spec fn run(self, replies: Seq<Reply>) -> MouseView
        decreases replies.len(),
    {
        if replies.len() == 0 {
            self
        } else {
            self.after(replies[0]).run(replies.drop_first())
        }
    }

    /// Whether one of a series of replies, oldest first, makes the refresh
    /// in progress fail.
    pub open spec fn fails_in(self, replies: Seq<Reply>) -> bool
        decreases replies.len(),
    {
        replies.len() > 0 && (self.fails_on(replies[0]) || self.after(replies[0]).fails_in(
            replies.drop_first(),
        ))
    }

    /// The handle with no refresh in progress and both readings as they
    /// are.
    pub open spec fn at_rest(self) -> MouseView {
        MouseView { exchange: None, ..self }
    }
}

/// One mouse.
#[derive(Debug)]
pub struct WLMouse {
    vendor_id: u16,
    product_id: u16,
    battery: u8,
    polling_rate: u16,
    product: WLMouseProduct,
    exchange: Option<Exchange>,
}

impl View for WLMouse {
    type V = MouseView;

    closed spec fn view(&self) -> MouseView {
        MouseView {
            vendor_id: self.vendor_id,
            product_id: self.product_id,
            battery: self.battery,
            polling_rate: self.polling_rate,
            product: self.product,
            exchange: match self.exchange {
                Some(exchange) => Some(exchange@),
                None => None,
            },
        }
    }
}

impl WLMouse {
    /// The variant is the one that the product identifier stands for, and it
    /// is a known one.
    #[verifier::type_invariant]
    spec fn is_known_product(self) -> bool {
        self.product == WLMouseProduct::of_id(self.product_id) && self.product
            != WLMouseProduct::Unknown
    }

    /// Makes the handle of the mouse with the given identifiers. Both
    /// readings start at zero. There is no handle for a product
    /// identifier that is not known.
    pub fn new(vendor_id: u16, product_id: u16) -> (mouse: Result<WLMouse, LocateError>)
        ensures
            match mouse {
                Ok(mouse) => {
                    &&& WLMouseProduct::of_id(product_id) != WLMouseProduct::Unknown
                    &&& mouse@ == MouseView::created(vendor_id, product_id)
                },
                Err(error) => {
                    &&& WLMouseProduct::of_id(product_id) == WLMouseProduct::Unknown
                    &&& error == LocateError::UnknownProduct
                },
            },
    {
        let product = WLMouseProduct::classify(product_id);
        match product {
            WLMouseProduct::Unknown => Err(LocateError::UnknownProduct),
            _ => Ok(
                WLMouse { vendor_id, product_id, battery: 0, polling_rate: 0, product, exchange: None },
            ),
        }
    }

    /// The vendor identifier that the handle was made with.
    pub fn vendor_id(&self) -> (vendor_id: u16)
        ensures
            vendor_id == self@.vendor_id,
    {
        self.vendor_id
    }

    /// The product identifier that the handle was made with.
    pub fn product_id(&self) -> (product_id: u16)
        ensures
            product_id == self@.product_id,
    {
        self.product_id
    }

    /// The battery level, in percent, as the mouse last reported it. The
    /// byte is kept as it came: nothing holds it to the range of a percentage.
    pub fn battery(&self) -> (battery: u8)
        ensures
            battery == self@.battery,
    {
        self.battery
    }

    /// The polling rate, in hertz, as the mouse last reported it; zero where
    /// it is not known.
    pub fn polling_rate(&self) -> (polling_rate: u16)
        ensures
            polling_rate == self@.polling_rate,
    {
        self.polling_rate
    }

    /// The variant of the mouse: a known one, and the one that its product
    /// identifier stands for.
    pub fn product(&self) -> (product: WLMouseProduct)
        ensures
            product == self@.product,
            product == WLMouseProduct::of_id(self@.product_id),
            product != WLMouseProduct::Unknown,
    {
        proof {
            use_type_invariant(self);
        }
        self.product
    }

    /// The name of the mouse's variant.
    pub fn name(&self) -> (name: &'static str)
        ensures
            name@ == self@.product.name_of(),
    {
        self.product.name()
    }

    /// Tells whether the mouse's protocol has a wire sequence for a query.
    /// The write/read family has none for the polling rate.
    pub fn supports(&self, query: Query) -> (supported: bool)
        ensures
            supported == self@.supports(query),
    {
        match self.product.protocol() {
            Some(Protocol::FeatureReport) => true,
            Some(Protocol::WriteRead) => match query {
                Query::Battery => true,
                Query::PollingRate => false,
            },
            None => false,
        }
    }

    /// Begins a refresh of the battery level.
    pub fn get_battery(&mut self)
        ensures
            final(self)@ == old(self)@.asking(Query::Battery),
            final(self)@.pending() is Some,
    {
        proof {
            use_type_invariant(&*self);
        }
        self.exchange = match self.product.protocol() {
            Some(protocol) => Exchange::new(protocol, Query::Battery),
            None => None,
        };
    }

    /// Begins a refresh of the polling rate. Only the feature-report family
    /// can be asked for it.
    pub fn get_polling_rate(&mut self)
        requires
            old(self)@.supports(Query::PollingRate),
        ensures
            final(self)@ == old(self)@.asking(Query::PollingRate),
            final(self)@.pending() is Some,
    {
        proof {
            use_type_invariant(&*self);
        }
        self.exchange = match self.product.protocol() {
            Some(protocol) => Exchange::new(protocol, Query::PollingRate),
            None => None,
        };
    }

    /// The request that the transport is to carry out next; none where no
    /// refresh is in progress.
    pub fn request(&self) -> (request: Option<Request>)
        ensures
            request is Some <==> self@.pending() is Some,
            request matches Some(r) ==> Some(r@) == self@.pending(),
    {
        match &self.exchange {
            Some(exchange) => exchange.request(),
            None => None,
        }
    }

    /// Takes the transport's reply to the outstanding request. The reply
    /// that completes the refresh stores the reading; a failure that aborts
    /// it is returned and leaves the handle's readings untouched.
    pub fn feed(&mut self, reply: Reply) -> (result: Result<(), IoError>)
        ensures
            final(self)@ == old(self)@.after(reply),
            result is Err <==> old(self)@.fails_on(reply),
    {
        proof {
            use_type_invariant(&*self);
        }
        match self.exchange {
            Some(mut exchange) => {
                exchange.feed(reply);
                match exchange.outcome() {
                    Some(Ok(raw)) => {
                        match exchange.query() {
                            Query::Battery => {
                                self.battery = raw;
                            },
                            Query::PollingRate => {
                                self.polling_rate = decode_polling_rate(raw);
                            },
                        }
                        self.exchange = None;
                        Ok(())
                    },
                    Some(Err(error)) => {
                        self.exchange = None;
                        Err(error)
                    },
                    None => {
                        self.exchange = Some(exchange);
                        Ok(())
                    },
                }
            },
            None => Ok(()),
        }
    }
}

/// Running a series of replies is taking the first and running the rest,
/// and the series fails where the first reply or the rest does.
pub proof fn lemma_run_unfolds(mouse: MouseView, first: Reply, rest: Seq<Reply>)
    ensures
        mouse.run(seq![first] + rest) == mouse.after(first).run(rest),
        mouse.fails_in(seq![first] + rest) == (mouse.fails_on(first) || mouse.after(
            first,
        ).fails_in(rest)),
{
    let replies = seq![first] + rest;
    assert(replies.drop_first() =~= rest);
}

/// A handle at rest ignores the transport: its readings change only
/// through a refresh.
pub proof fn lemma_at_rest_ignores_replies(mouse: MouseView, replies: Seq<Reply>)
    requires
        mouse.exchange is None,
    ensures
        mouse.pending() is None,
        mouse.run(replies) == mouse,
        !mouse.fails_in(replies),
    decreases replies.len(),
{
    if replies.len() > 0 {
        lemma_at_rest_ignores_replies(mouse, replies.drop_first());
    }
}

/// A refresh over feature reports never fails and always stores the byte at
/// the value offset of the response buffer, as it is: the battery level
/// takes any byte, the polling rate is decoded from it. The other reading is
/// left alone.
pub proof fn lemma_feature_refresh_stores_value_byte(
    mouse: MouseView,
    query: Query,
    sent: bool,
    received: bool,
    response: [u8; FEATURE_REPORT_LEN],
)
    requires
        mouse.product.protocol_of() == Some(Protocol::FeatureReport),
    ensures
        mouse.asking(query).run(feature_replies(sent, received, response)) == mouse.storing(
            query,
            response@[VALUE_OFFSET as int],
        ),
        !mouse.asking(query).fails_in(feature_replies(sent, received, response)),
        query == Query::Battery ==> mouse.asking(query).run(
            feature_replies(sent, received, response),
        ).battery == response@[VALUE_OFFSET as int],
{
    let asking = mouse.asking(query);
    let first = Reply::FeatureReportSent { ok: sent };
    let second = Reply::Settled;
    let third = Reply::FeatureReport { ok: received, buffer: response };
    let t2 = seq![third] + Seq::empty();
    let t1 = seq![second] + t2;
    assert(feature_replies(sent, received, response) =~= seq![first] + t1);
    let m1 = asking.after(first);
    let m2 = m1.after(second);
    let m3 = m2.after(third);
    lemma_run_unfolds(asking, first, t1);
    lemma_run_unfolds(m1, second, t2);
    lemma_run_unfolds(m2, third, Seq::empty());
    assert(m3 == mouse.storing(query, response@[VALUE_OFFSET as int]));
}

/// A refresh over the write/read protocol stores the byte at the value
/// offset of the second response exactly when the transport reported success
/// on both writes and both reads. A failure at any of the four fails the
/// refresh and leaves both readings as they were.
pub proof fn lemma_raw_refresh_is_strict(
    mouse: MouseView,
    primed: bool,
    echoed: bool,
    echo: [u8; RAW_REPORT_LEN],
    asked: bool,
    answered: bool,
    response: [u8; RAW_REPORT_LEN],
)
    requires
        mouse.product.protocol_of() == Some(Protocol::WriteRead),
    ensures
        mouse.asking(Query::Battery).fails_in(
            raw_replies(primed, echoed, echo, asked, answered, response),
        ) <==> !(primed && echoed && asked && answered),
        mouse.asking(Query::Battery).run(
            raw_replies(primed, echoed, echo, asked, answered, response),
        ) == (if primed && echoed && asked && answered {
            mouse.storing(Query::Battery, response@[VALUE_OFFSET as int])
        } else {
            mouse.at_rest()
        }),
{
    let asking = mouse.asking(Query::Battery);
    let r0 = Reply::Written { ok: primed };
    let r1 = Reply::Input { ok: echoed, buffer: echo };
    let r2 = Reply::Settled;
    let r3 = Reply::Written { ok: asked };
    let r4 = Reply::Input { ok: answered, buffer: response };
    let t4 = seq![r4] + Seq::empty();
    let t3 = seq![r3] + t4;
    let t2 = seq![r2] + t3;
    let t1 = seq![r1] + t2;
    assert(raw_replies(primed, echoed, echo, asked, answered, response) =~= seq![r0] + t1);
    let m1 = asking.after(r0);
    let m2 = m1.after(r1);
    let m3 = m2.after(r2);
    let m4 = m3.after(r3);
    let m5 = m4.after(r4);
    lemma_run_unfolds(asking, r0, t1);
    lemma_run_unfolds(m1, r1, t2);
    lemma_run_unfolds(m2, r2, t3);
    lemma_run_unfolds(m3, r3, t4);
    lemma_run_unfolds(m4, r4, Seq::empty());
    if !primed {
        lemma_at_rest_ignores_replies(m1, t1);
    } else if !echoed {
        lemma_at_rest_ignores_replies(m2, t2);
    } else if !asked {
        lemma_at_rest_ignores_replies(m4, t4);
    }
}

/// No reply changes who the mouse is.
pub proof fn lemma_identity_is_kept(mouse: MouseView, replies: Seq<Reply>)
    ensures
        mouse.run(replies).vendor_id == mouse.vendor_id,
        mouse.run(replies).product_id == mouse.product_id,
        mouse.run(replies).product == mouse.product,
    decreases replies.len(),
{
    if replies.len() > 0 {
        lemma_identity_is_kept(mouse.after(replies[0]), replies.drop_first());
    }
}

/// Two handles of one mouse that are at the same point of the same refresh
/// stay so along any series of replies, and each reading either becomes the
/// same on both or stays what it was on each.
proof fn lemma_runs_agree(a: MouseView, b: MouseView, replies: Seq<Reply>)
    requires
        a.exchange == b.exchange,
        a.vendor_id == b.vendor_id,
        a.product_id == b.product_id,
        a.product == b.product,
    ensures
        a.run(replies).exchange == b.run(replies).exchange,
        a.run(replies).vendor_id == b.run(replies).vendor_id,
        a.run(replies).product_id == b.run(replies).product_id,
        a.run(replies).product == b.run(replies).product,
        a.run(replies).battery == b.run(replies).battery || (a.run(replies).battery == a.battery
            && b.run(replies).battery == b.battery),
        a.run(replies).polling_rate == b.run(replies).polling_rate || (a.run(
            replies,
        ).polling_rate == a.polling_rate && b.run(replies).polling_rate == b.polling_rate),
    decreases replies.len(),
{
    if replies.len() > 0 {
        lemma_runs_agree(a.after(replies[0]), b.after(replies[0]), replies.drop_first());
    }
}

/// A refresh that is repeated against a transport that replies as before
/// leaves the handle as the first refresh left it.
pub proof fn lemma_refresh_is_idempotent(mouse: MouseView, query: Query, replies: Seq<Reply>)
    ensures
        mouse.asking(query).run(replies).asking(query).run(replies) == mouse.asking(query).run(
            replies,
        ),
{
    let once = mouse.asking(query).run(replies);
    lemma_identity_is_kept(mouse.asking(query), replies);
    lemma_runs_agree(mouse.asking(query), once.asking(query), replies);
}

} // verus!
