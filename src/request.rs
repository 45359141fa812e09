//! Streaming-tariff requests: the typed records, their external form with
//! every checked field as text, and the conversions between the two.

use vstd::prelude::*;
use crate::error::{Field, FormatError};
use crate::ident::{is_normal_url, normal_url_of, text_of_uuid, url_from_text, url_of_text, uuid_of_text, user_id_from_text, user_id_to_text};
use crate::instant::{text_of_instant, timestamp_decode, Timestamp};
use crate::span::{span_read, text_of_span, Span};

verus! {

/// A user's contact card; none of its fields is checked.
#[derive(Clone, Debug)]
pub struct User {
    pub name: String,
    pub email: String,
    pub birthdate: String,
}

/// The outcome that a request reports.
#[derive(Clone, Copy, Debug, PartialEq, Eq, Structural)]
pub enum RequestType {
    Success,
    Failure,
}

/// The external literal of each request type.
pub open spec fn request_type_tag(t: RequestType) -> Seq<char> {
    match t {
        RequestType::Success => "success"@,
        RequestType::Failure => "failure"@,
    }
}

/// The request type that a literal names, if any.
pub open spec fn request_type_of_tag(s: Seq<char>) -> Option<RequestType> {
    if s == "success"@ {
        Some(RequestType::Success)
    } else if s == "failure"@ {
        Some(RequestType::Failure)
    } else {
        None
    }
}

impl RequestType {
    /// The external literal of the request type.
    pub fn tag(&self) -> (r: String)
        ensures
            r@ == request_type_tag(*self),
            request_type_of_tag(r@) == Some(*self),
    {
        proof {
            reveal_strlit("success");
            reveal_strlit("failure");
            assert("failure"@[0] != "success"@[0]);
        }
        match self {
            RequestType::Success => String::from_str("success"),
            RequestType::Failure => String::from_str("failure"),
        }
    }

    /// The request type that a literal names; `None` for any other literal.
    pub fn from_tag(s: &String) -> (r: Option<RequestType>)
        ensures
            r == request_type_of_tag(s@),
    {
        proof {
            reveal_strlit("success");
            reveal_strlit("failure");
        }
        let success = String::from_str("success");
        let failure = String::from_str("failure");
        if s.eq(&success) {
            Some(RequestType::Success)
        } else if s.eq(&failure) {
            Some(RequestType::Failure)
        } else {
            None
        }
    }
}

/// A gift attached to a request.
#[derive(Clone, Debug)]
pub struct Gift {
    pub id: u32,
    pub price: u32,
    pub description: String,
}

pub ghost struct GiftView {
    pub id: u32,
    pub price: u32,
    pub description: Seq<char>,
}

impl View for Gift {
    type V = GiftView;

    open spec fn view(&self) -> GiftView {
        GiftView { id: self.id, price: self.price, description: self.description@ }
    }
}

/// The views of a list of gifts.
pub open spec fn gifts_view(gs: Seq<Gift>) -> Seq<GiftView> {
    gs.map_values(|g: Gift| g@)
}

impl Gift {
    /// A copy of the gift.
    pub fn duplicate(&self) -> (r: Gift)
        ensures
            r@ == self@,
    {
        Gift { id: self.id, price: self.price, description: self.description.clone() }
    }
}

/// A copy of a list of gifts, in the same order.
pub fn copy_gifts(gs: &Vec<Gift>) -> (r: Vec<Gift>)
    ensures
        gifts_view(r@) == gifts_view(gs@),
{
    let mut r: Vec<Gift> = Vec::new();
    let mut i: usize = 0;
    while i < gs.len()
        invariant
            0 <= i <= gs.len(),
            r@.len() == i,
            forall|j: int| 0 <= j < i ==> #[trigger] r@[j]@ == gs@[j]@,
        decreases gs.len() - i,
    {
        r.push(gs[i].duplicate());
        i = i + 1;
    }
    assert(gifts_view(r@) =~= gifts_view(gs@));
    r
}

/// The public plan of a stream.
#[derive(Clone, Debug)]
pub struct PublicTariff {
    pub id: u32,
    pub price: u32,
    pub duration: Span,
    pub description: String,
}

/// The plan agreed with one client.
#[derive(Clone, Debug)]
pub struct PrivateTariff {
    pub client_price: u32,
    pub duration: Span,
    pub description: String,
}

/// A stream, its owner, its shard and its plans.
#[derive(Clone, Debug)]
pub struct Stream {
    pub user_id: u128,
    pub is_private: bool,
    pub settings: u32,
    pub shard_url: String,
    pub public_tariff: PublicTariff,
    pub private_tariff: PrivateTariff,
}

/// Diagnostic data of a request.
#[derive(Clone, Copy, Debug, PartialEq, Eq, Structural)]
pub struct Debug {
    pub duration: Span,
    pub at: Timestamp,
}

/// A request: its outcome, its stream, its gifts in order, and diagnostics.
#[derive(Clone, Debug)]
pub struct Request {
    pub request_type: RequestType,
    pub stream: Stream,
    pub gifts: Vec<Gift>,
    pub debug: Debug,
}

pub ghost struct PublicTariffView {
    pub id: u32,
    pub price: u32,
    pub duration: Span,
    pub description: Seq<char>,
}

pub ghost struct PrivateTariffView {
    pub client_price: u32,
    pub duration: Span,
    pub description: Seq<char>,
}

pub ghost struct StreamView {
    pub user_id: u128,
    pub is_private: bool,
    pub settings: u32,
    pub shard_url: Seq<char>,
    pub public_tariff: PublicTariffView,
    pub private_tariff: PrivateTariffView,
}

pub ghost struct RequestView {
    pub request_type: RequestType,
    pub stream: StreamView,
    pub gifts: Seq<GiftView>,
    pub debug: Debug,
}

impl View for PublicTariff {
    type V = PublicTariffView;

    open spec fn view(&self) -> PublicTariffView {
        PublicTariffView {
            id: self.id,
            price: self.price,
            duration: self.duration,
            description: self.description@,
        }
    }
}

impl View for PrivateTariff {
    type V = PrivateTariffView;

    open spec fn view(&self) -> PrivateTariffView {
        PrivateTariffView {
            client_price: self.client_price,
            duration: self.duration,
            description: self.description@,
        }
    }
}

impl View for Stream {
    type V = StreamView;

    open spec fn view(&self) -> StreamView {
        StreamView {
            user_id: self.user_id,
            is_private: self.is_private,
            settings: self.settings,
            shard_url: self.shard_url@,
            public_tariff: self.public_tariff@,
            private_tariff: self.private_tariff@,
        }
    }
}

impl View for Request {
    type V = RequestView;

    open spec fn view(&self) -> RequestView {
        RequestView {
            request_type: self.request_type,
            stream: self.stream@,
            gifts: gifts_view(self.gifts@),
            debug: self.debug,
        }
    }
}

impl PublicTariffView {
    pub open spec fn wf(&self) -> bool {
        self.duration.wf()
    }
}

impl PrivateTariffView {
    pub open spec fn wf(&self) -> bool {
        self.duration.wf()
    }
}

impl StreamView {
    /// The shard URL is in normal form and both plans are valid.
    pub open spec fn wf(&self) -> bool {
        &&& is_normal_url(self.shard_url)
        &&& self.public_tariff.wf()
        &&& self.private_tariff.wf()
    }
}

impl Debug {
    pub open spec fn wf(&self) -> bool {
        self.duration.wf() && self.at.wf()
    }
}

impl RequestView {
    /// Every checked field holds a value that its text form can carry.
    pub open spec fn wf(&self) -> bool {
        self.stream.wf() && self.debug.wf()
    }
}

/// A public plan with its duration as text.
#[derive(Clone, Debug)]
pub struct PublicTariffWire {
    pub id: u32,
    pub price: u32,
    pub duration: String,
    pub description: String,
}

/// A private plan with its duration as text.
#[derive(Clone, Debug)]
pub struct PrivateTariffWire {
    pub client_price: u32,
    pub duration: String,
    pub description: String,
}

/// A stream with its owner and shard as text.
#[derive(Clone, Debug)]
pub struct StreamWire {
    pub user_id: String,
    pub is_private: bool,
    pub settings: u32,
    pub shard_url: String,
    pub public_tariff: PublicTariffWire,
    pub private_tariff: PrivateTariffWire,
}

/// Diagnostics with the duration and the instant as text.
#[derive(Clone, Debug)]
pub struct DebugWire {
    pub duration: String,
    pub at: String,
}

/// A request as it is written out: every checked field as text.
#[derive(Clone, Debug)]
pub struct RequestWire {
    pub request_type: String,
    pub stream: StreamWire,
    pub gifts: Vec<Gift>,
    pub debug: DebugWire,
}

pub ghost struct PublicTariffWireView {
    pub id: u32,
    pub price: u32,
    pub duration: Seq<char>,
    pub description: Seq<char>,
}

pub ghost struct PrivateTariffWireView {
    pub client_price: u32,
    pub duration: Seq<char>,
    pub description: Seq<char>,
}

pub ghost struct StreamWireView {
    pub user_id: Seq<char>,
    pub is_private: bool,
    pub settings: u32,
    pub shard_url: Seq<char>,
    pub public_tariff: PublicTariffWireView,
    pub private_tariff: PrivateTariffWireView,
}

pub ghost struct DebugWireView {
    pub duration: Seq<char>,
    pub at: Seq<char>,
}

pub ghost struct RequestWireView {
    pub request_type: Seq<char>,
    pub stream: StreamWireView,
    pub gifts: Seq<GiftView>,
    pub debug: DebugWireView,
}

impl View for PublicTariffWire {
    type V = PublicTariffWireView;

    open spec fn view(&self) -> PublicTariffWireView {
        PublicTariffWireView {
            id: self.id,
            price: self.price,
            duration: self.duration@,
            description: self.description@,
        }
    }
}

impl View for PrivateTariffWire {
    type V = PrivateTariffWireView;

    open spec fn view(&self) -> PrivateTariffWireView {
        PrivateTariffWireView {
            client_price: self.client_price,
            duration: self.duration@,
            description: self.description@,
        }
    }
}

impl View for StreamWire {
    type V = StreamWireView;

    open spec fn view(&self) -> StreamWireView {
        StreamWireView {
            user_id: self.user_id@,
            is_private: self.is_private,
            settings: self.settings,
            shard_url: self.shard_url@,
            public_tariff: self.public_tariff@,
            private_tariff: self.private_tariff@,
        }
    }
}

impl View for DebugWire {
    type V = DebugWireView;

    open spec fn view(&self) -> DebugWireView {
        DebugWireView { duration: self.duration@, at: self.at@ }
    }
}

impl View for RequestWire {
    type V = RequestWireView;

    open spec fn view(&self) -> RequestWireView {
        RequestWireView {
            request_type: self.request_type@,
            stream: self.stream@,
            gifts: gifts_view(self.gifts@),
            debug: self.debug@,
        }
    }
}

pub open spec fn encode_public_tariff(v: PublicTariffView) -> PublicTariffWireView {
    PublicTariffWireView {
        id: v.id,
        price: v.price,
        duration: text_of_span(v.duration.secs, v.duration.nanos),
        description: v.description,
    }
}

pub open spec fn encode_private_tariff(v: PrivateTariffView) -> PrivateTariffWireView {
    PrivateTariffWireView {
        client_price: v.client_price,
        duration: text_of_span(v.duration.secs, v.duration.nanos),
        description: v.description,
    }
}

pub open spec fn encode_stream(v: StreamView) -> StreamWireView {
    StreamWireView {
        user_id: text_of_uuid(v.user_id),
        is_private: v.is_private,
        settings: v.settings,
        shard_url: v.shard_url,
        public_tariff: encode_public_tariff(v.public_tariff),
        private_tariff: encode_private_tariff(v.private_tariff),
    }
}

pub open spec fn encode_debug(v: Debug) -> DebugWireView {
    DebugWireView {
        duration: text_of_span(v.duration.secs, v.duration.nanos),
        at: text_of_instant(v.at.secs, v.at.nanos),
    }
}

/// The external form of a request: each checked field written as text,
/// everything else as it is.
pub open spec fn encode_request(v: RequestView) -> RequestWireView {
    RequestWireView {
        request_type: request_type_tag(v.request_type),
        stream: encode_stream(v.stream),
        gifts: v.gifts,
        debug: encode_debug(v.debug),
    }
}

pub open spec fn decode_public_tariff(w: PublicTariffWireView) -> Result<PublicTariffView, FormatError> {
    match span_read(w.duration) {
        Some(d) => Ok(
            PublicTariffView { id: w.id, price: w.price, duration: d, description: w.description },
        ),
        None => Err(FormatError { field: Field::PublicTariffDuration }),
    }
}

pub open spec fn decode_private_tariff(w: PrivateTariffWireView) -> Result<PrivateTariffView, FormatError> {
    match span_read(w.duration) {
        Some(d) => Ok(
            PrivateTariffView {
                client_price: w.client_price,
                duration: d,
                description: w.description,
            },
        ),
        None => Err(FormatError { field: Field::PrivateTariffDuration }),
    }
}

/// The stream that an external form holds, checking the owner, the shard
/// URL, the public plan and the private plan in that order.
pub open spec fn decode_stream(w: StreamWireView) -> Result<StreamView, FormatError> {
    match uuid_of_text(w.user_id) {
        None => Err(FormatError { field: Field::UserId }),
        Some(user_id) => match normal_url_of(w.shard_url) {
            None => Err(FormatError { field: Field::ShardUrl }),
            Some(shard_url) => match decode_public_tariff(w.public_tariff) {
                Err(e) => Err(e),
                Ok(public_tariff) => match decode_private_tariff(w.private_tariff) {
                    Err(e) => Err(e),
                    Ok(private_tariff) => Ok(
                        StreamView {
                            user_id,
                            is_private: w.is_private,
                            settings: w.settings,
                            shard_url,
                            public_tariff,
                            private_tariff,
                        },
                    ),
                },
            },
        },
    }
}

pub open spec fn decode_debug(w: DebugWireView) -> Result<Debug, FormatError> {
    match span_read(w.duration) {
        None => Err(FormatError { field: Field::DebugDuration }),
        Some(duration) => match timestamp_decode(w.at) {
            None => Err(FormatError { field: Field::DebugAt }),
            Some(at) => Ok(Debug { duration, at }),
        },
    }
}

/// The request that an external form holds: the request type, then the
/// stream, then the diagnostics are checked, and the first field that does
/// not conform is named.
pub open spec fn decode_request(w: RequestWireView) -> Result<RequestView, FormatError> {
    match request_type_of_tag(w.request_type) {
        None => Err(FormatError { field: Field::RequestType }),
        Some(request_type) => match decode_stream(w.stream) {
            Err(e) => Err(e),
            Ok(stream) => match decode_debug(w.debug) {
                Err(e) => Err(e),
                Ok(debug) => Ok(RequestView { request_type, stream, gifts: w.gifts, debug }),
            },
        },
    }
}

impl PublicTariff {
    /// The external form; it reads back as the same plan.
    pub fn to_wire(&self) -> (w: PublicTariffWire)
        requires
            self@.wf(),
        ensures
            w@ == encode_public_tariff(self@),
            decode_public_tariff(w@) == Ok::<PublicTariffView, FormatError>(self@),
    {
        PublicTariffWire {
            id: self.id,
            price: self.price,
            duration: self.duration.to_text(),
            description: self.description.clone(),
        }
    }

    /// The plan that an external form holds.
    pub fn from_wire(w: PublicTariffWire) -> (r: Result<PublicTariff, FormatError>)
        ensures
            match r {
                Ok(v) => decode_public_tariff(w@) == Ok::<PublicTariffView, FormatError>(v@) && v@.wf(),
                Err(e) => decode_public_tariff(w@) == Err::<PublicTariffView, FormatError>(e),
            },
    {
        match Span::from_text(w.duration.as_str()) {
            Some(duration) => Ok(
                PublicTariff { id: w.id, price: w.price, duration, description: w.description },
            ),
            None => Err(FormatError { field: Field::PublicTariffDuration }),
        }
    }
}

impl PrivateTariff {
    /// The external form; it reads back as the same plan.
    pub fn to_wire(&self) -> (w: PrivateTariffWire)
        requires
            self@.wf(),
        ensures
            w@ == encode_private_tariff(self@),
            decode_private_tariff(w@) == Ok::<PrivateTariffView, FormatError>(self@),
    {
        PrivateTariffWire {
            client_price: self.client_price,
            duration: self.duration.to_text(),
            description: self.description.clone(),
        }
    }

    /// The plan that an external form holds.
    pub fn from_wire(w: PrivateTariffWire) -> (r: Result<PrivateTariff, FormatError>)
        ensures
            match r {
                Ok(v) => decode_private_tariff(w@) == Ok::<PrivateTariffView, FormatError>(v@) && v@.wf(),
                Err(e) => decode_private_tariff(w@) == Err::<PrivateTariffView, FormatError>(e),
            },
    {
        match Span::from_text(w.duration.as_str()) {
            Some(duration) => Ok(
                PrivateTariff {
                    client_price: w.client_price,
                    duration,
                    description: w.description,
                },
            ),
            None => Err(FormatError { field: Field::PrivateTariffDuration }),
        }
    }
}

impl Stream {
    /// A stream whose shard address is the normal form of `shard_url`;
    /// `None` when that text is not a URL. A stream made here with valid
    /// plans is valid, so it can be written out.
    pub fn new(
        user_id: u128,
        is_private: bool,
        settings: u32,
        shard_url: &str,
        public_tariff: PublicTariff,
        private_tariff: PrivateTariff,
    ) -> (r: Option<Stream>)
        ensures
            match r {
                Some(v) => {
                    &&& normal_url_of(shard_url@) == Some(v.shard_url@)
                    &&& v.user_id == user_id
                    &&& v.is_private == is_private
                    &&& v.settings == settings
                    &&& v.public_tariff@ == public_tariff@
                    &&& v.private_tariff@ == private_tariff@
                    &&& (public_tariff@.wf() && private_tariff@.wf() ==> v@.wf())
                },
                None => normal_url_of(shard_url@) is None,
            },
    {
        match url_from_text(shard_url) {
            Some(t) => Some(
                Stream { user_id, is_private, settings, shard_url: t, public_tariff, private_tariff },
            ),
            None => None,
        }
    }

    /// The external form; it reads back as the same stream.
    pub fn to_wire(&self) -> (w: StreamWire)
        requires
            self@.wf(),
        ensures
            w@ == encode_stream(self@),
            decode_stream(w@) == Ok::<StreamView, FormatError>(self@),
    {
        StreamWire {
            user_id: user_id_to_text(self.user_id),
            is_private: self.is_private,
            settings: self.settings,
            shard_url: self.shard_url.clone(),
            public_tariff: self.public_tariff.to_wire(),
            private_tariff: self.private_tariff.to_wire(),
        }
    }

    /// The stream that an external form holds.
    pub fn from_wire(w: StreamWire) -> (r: Result<Stream, FormatError>)
        ensures
            match r {
                Ok(v) => decode_stream(w@) == Ok::<StreamView, FormatError>(v@) && v@.wf(),
                Err(e) => decode_stream(w@) == Err::<StreamView, FormatError>(e),
            },
    {
        let user_id = match user_id_from_text(w.user_id.as_str()) {
            Some(u) => u,
            None => {
                return Err(FormatError { field: Field::UserId });
            },
        };
        let shard_url = match url_from_text(w.shard_url.as_str()) {
            Some(t) => t,
            None => {
                return Err(FormatError { field: Field::ShardUrl });
            },
        };
        let public_tariff = match PublicTariff::from_wire(w.public_tariff) {
            Ok(t) => t,
            Err(e) => {
                return Err(e);
            },
        };
        let private_tariff = match PrivateTariff::from_wire(w.private_tariff) {
            Ok(t) => t,
            Err(e) => {
                return Err(e);
            },
        };
        Ok(
            Stream {
                user_id,
                is_private: w.is_private,
                settings: w.settings,
                shard_url,
                public_tariff,
                private_tariff,
            },
        )
    }
}

impl Debug {
    /// The external form; it reads back as the same diagnostics.
    pub fn to_wire(&self) -> (w: DebugWire)
        requires
            self.wf(),
        ensures
            w@ == encode_debug(*self),
            decode_debug(w@) == Ok::<Debug, FormatError>(*self),
    {
        DebugWire { duration: self.duration.to_text(), at: self.at.to_text() }
    }

    /// The diagnostics that an external form holds.
    pub fn from_wire(w: DebugWire) -> (r: Result<Debug, FormatError>)
        ensures
            match r {
                Ok(v) => decode_debug(w@) == Ok::<Debug, FormatError>(v) && v.wf(),
                Err(e) => decode_debug(w@) == Err::<Debug, FormatError>(e),
            },
    {
        let duration = match Span::from_text(w.duration.as_str()) {
            Some(d) => d,
            None => {
                return Err(FormatError { field: Field::DebugDuration });
            },
        };
        match Timestamp::from_text(w.at.as_str()) {
            Some(at) => Ok(Debug { duration, at }),
            None => Err(FormatError { field: Field::DebugAt }),
        }
    }
}

impl Request {
    /// The external form of a valid request. Reading it back gives a
    /// request equal to this one, field for field.
    pub fn to_wire(&self) -> (w: RequestWire)
        requires
            self@.wf(),
        ensures
            w@ == encode_request(self@),
            decode_request(w@) == Ok::<RequestView, FormatError>(self@),
    {
        let request_type = self.request_type.tag();
        let stream = self.stream.to_wire();
        let gifts = copy_gifts(&self.gifts);
        let debug = self.debug.to_wire();
        RequestWire { request_type, stream, gifts, debug }
    }

    /// The request that an external form holds. It fails, with no record at
    /// all, naming the first field whose text does not conform.
    pub fn from_wire(w: RequestWire) -> (r: Result<Request, FormatError>)
        ensures
            match r {
                Ok(v) => decode_request(w@) == Ok::<RequestView, FormatError>(v@) && v@.wf(),
                Err(e) => decode_request(w@) == Err::<RequestView, FormatError>(e),
            },
    {
        let request_type = match RequestType::from_tag(&w.request_type) {
            Some(t) => t,
            None => {
                return Err(FormatError { field: Field::RequestType });
            },
        };
        let stream = match Stream::from_wire(w.stream) {
            Ok(s) => s,
            Err(e) => {
                return Err(e);
            },
        };
        let debug = match Debug::from_wire(w.debug) {
            Ok(d) => d,
            Err(e) => {
                return Err(e);
            },
        };
        Ok(Request { request_type, stream, gifts: w.gifts, debug })
    }
}

/// A request whose type literal is neither `success` nor `failure` is
/// rejected as a whole, naming the request type, whatever else it holds.
pub proof fn lemma_unknown_type_rejected(w: RequestWireView)
    requires
        request_type_of_tag(w.request_type) is None,
    ensures
        decode_request(w) == Err::<RequestView, FormatError>(FormatError { field: Field::RequestType }),
{
}

/// A request with a known type whose owner is not a valid identifier is
/// rejected, naming the owner field.
pub proof fn lemma_malformed_user_id_rejected(w: RequestWireView)
    requires
        request_type_of_tag(w.request_type) is Some,
        uuid_of_text(w.stream.user_id) is None,
    ensures
        decode_request(w) == Err::<RequestView, FormatError>(FormatError { field: Field::UserId }),
{
}

/// A request with a known type and a valid owner whose shard address is not
/// a valid URL is rejected, naming the shard URL field.
pub proof fn lemma_malformed_shard_url_rejected(w: RequestWireView)
    requires
        request_type_of_tag(w.request_type) is Some,
        uuid_of_text(w.stream.user_id) is Some,
        normal_url_of(w.stream.shard_url) is None,
    ensures
        decode_request(w) == Err::<RequestView, FormatError>(FormatError { field: Field::ShardUrl }),
{
}

} // verus!
