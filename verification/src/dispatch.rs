//! The coordination of one visit: resolve the reference, fetch, read the
//! status, follow redirects up to a limit, and end in a page, a download,
//! a prompt or an error. The network is not touched here: a step says
//! what to fetch, and the next step takes what the fetch gave.

use crate::absolute::{resolve, spec_resolve};
use crate::address::{Address, AddressView};
use crate::client::{Client, FetchError, Request, RequestView};
use crate::gopher::client::SelectorRule;
use crate::history::{append, forget_current, get_previous_url, previous, History};
use crate::protocols::Scheme;
use crate::status::{spec_status, Kind, Status};
use crate::text::{lemma_text_of_encoded, starts_with, text, text_of};
use vstd::prelude::*;

verus! {

/// What is left open by the protocols and fixed per session.
#[derive(Clone, Copy, Debug, PartialEq, Eq, Structural)]
pub struct Config {
    /// How Gopher selectors are freed of an item type in front.
    pub selector_rule: SelectorRule,
    /// How many redirects one visit may follow.
    pub redirect_limit: u8,
    /// Whether Gemini servers are taken at their word: no certificate
    /// and no host name is checked.
    pub trust_any_certificate: bool,
}

impl Default for Config {
    /// The usual session: selectors lose any item type in front, a visit
    /// follows at most five redirects, and any certificate is taken.
    fn default() -> (r: Config)
        ensures
            r == (Config {
                selector_rule: SelectorRule::AnyTypePrefix,
                redirect_limit: 5,
                trust_any_certificate: true,
            }),
    {
        Config {
            selector_rule: SelectorRule::AnyTypePrefix,
            redirect_limit: 5,
            trust_any_certificate: true,
        }
    }
}

/// How a visit ended.
#[derive(Clone, Debug, PartialEq, Eq)]
pub enum Outcome {
    /// A page to show. Gemini pages come with their media type.
    Success { scheme: Scheme, address: Address, mime: Option<String>, content: String },
    /// A Gemini response that is not text, to be saved and opened.
    Download { address: Address, mime: String, body: Vec<u8> },
    /// The server asks for input; the answer goes back to `address`.
    Prompt { address: Address, prompt: String },
    /// The visit failed, with a message for the reader.
    Error(String),
}

/// Where a visit stands.
#[derive(Clone, Debug, PartialEq, Eq)]
pub enum State {
    /// A reference is to be resolved.
    Resolving { scheme: Scheme, reference: String, hops: u8 },
    /// A request is out; the next step needs what came of it.
    Fetching { scheme: Scheme, address: Address, request: Request, hops: u8 },
    /// A Gemini response is in; its status line is to be read.
    Interpreting { address: Address, meta: Vec<u8>, body: Vec<u8>, hops: u8 },
    /// The server sent the visit elsewhere.
    Redirecting { target: String, hops: u8 },
    /// The visit is over.
    Terminal(Outcome),
}

/// What happened outside since the last step.
#[derive(Clone, Debug, PartialEq, Eq)]
pub enum Event {
    /// Nothing: the step needs nothing from outside.
    Nothing,
    /// The exchange ran; these bytes came back.
    Fetched(Vec<u8>),
    /// The exchange failed.
    Failed(FetchError),
}

/// What is to be done outside before the next step.
#[derive(Clone, Debug, PartialEq, Eq)]
pub enum Action {
    /// Nothing: step again.
    Continue,
    /// Run this exchange and step with what it gives.
    Fetch(Request),
    /// Nothing more: the visit is over.
    Finish,
}

/// The mathematical value of an [`Outcome`].
pub enum OutcomeView {
    Success { scheme: Scheme, address: AddressView, mime: Option<Seq<char>>, content: Seq<char> },
    Download { address: AddressView, mime: Seq<char>, body: Seq<u8> },
    Prompt { address: AddressView, prompt: Seq<char> },
    Error(Seq<char>),
}

/// The mathematical value of a [`State`].
pub enum StateView {
    Resolving { scheme: Scheme, reference: Seq<char>, hops: u8 },
    Fetching { scheme: Scheme, address: AddressView, request: RequestView, hops: u8 },
    Interpreting { address: AddressView, meta: Seq<u8>, body: Seq<u8>, hops: u8 },
    Redirecting { target: Seq<char>, hops: u8 },
    Terminal(OutcomeView),
}

/// The mathematical value of an [`Event`]. Of a failed exchange only the
/// message counts.
pub enum EventView {
    Nothing,
    Fetched(Seq<u8>),
    Failed(Seq<char>),
}

/// The mathematical value of an [`Action`].
pub enum ActionView {
    Continue,
    Fetch(RequestView),
    Finish,
}

impl View for Outcome {
    type V = OutcomeView;

    open spec fn view(&self) -> OutcomeView {
        match self {
            Outcome::Success { scheme, address, mime, content } => OutcomeView::Success {
                scheme: *scheme,
                address: address@,
                mime: crate::address::view_opt(*mime),
                content: content@,
            },
            Outcome::Download { address, mime, body } => OutcomeView::Download {
                address: address@,
                mime: mime@,
                body: body@,
            },
            Outcome::Prompt { address, prompt } => OutcomeView::Prompt {
                address: address@,
                prompt: prompt@,
            },
            Outcome::Error(message) => OutcomeView::Error(message@),
        }
    }
}

impl View for State {
    type V = StateView;

    open spec fn view(&self) -> StateView {
        match self {
            State::Resolving { scheme, reference, hops } => StateView::Resolving {
                scheme: *scheme,
                reference: reference@,
                hops: *hops,
            },
            State::Fetching { scheme, address, request, hops } => StateView::Fetching {
                scheme: *scheme,
                address: address@,
                request: request@,
                hops: *hops,
            },
            State::Interpreting { address, meta, body, hops } => StateView::Interpreting {
                address: address@,
                meta: meta@,
                body: body@,
                hops: *hops,
            },
            State::Redirecting { target, hops } => StateView::Redirecting {
                target: target@,
                hops: *hops,
            },
            State::Terminal(outcome) => StateView::Terminal(outcome@),
        }
    }
}

impl View for Event {
    type V = EventView;

    open spec fn view(&self) -> EventView {
        match self {
            Event::Nothing => EventView::Nothing,
            Event::Fetched(raw) => EventView::Fetched(raw@),
            Event::Failed(e) => EventView::Failed(e.spec_message()),
        }
    }
}

impl View for Action {
    type V = ActionView;

    open spec fn view(&self) -> ActionView {
        match self {
            Action::Continue => ActionView::Continue,
            Action::Fetch(request) => ActionView::Fetch(request@),
            Action::Finish => ActionView::Finish,
        }
    }
}

/// The message for a reference that gives no valid address.
pub open spec fn invalid_address() -> Seq<char> {
    "Invalid address"@
}

/// The message for an address that no request can be built for.
pub open spec fn no_request() -> Seq<char> {
    "Cannot build a request for this address"@
}

/// The message for a response without a well-formed status line.
pub open spec fn malformed_response() -> Seq<char> {
    "Malformed response"@
}

/// The message for a visit that was redirected too often.
pub open spec fn too_many_redirects() -> Seq<char> {
    "Too many redirects"@
}

/// The message for a page that is gone.
pub open spec fn gone() -> Seq<char> {
    "Sorry page is gone."@
}

/// The message for a page that wants a client certificate.
pub open spec fn certificate_required() -> Seq<char> {
    "You need a valid certificate to access this page."@
}

/// Whether a status of kind `kind` asks for a client certificate.
pub open spec fn wants_certificate(kind: Kind) -> bool {
    kind == Kind::ClientCertificateRequired || kind == Kind::TransientCertificateRequired || kind
        == Kind::AuthorisedCertificatedRequired || kind == Kind::CertificateNotAccepted || kind
        == Kind::FutureCertificateRejected || kind == Kind::ExpiredCertificateRejected
}

/// The message for a status that ends the visit without a page: a fixed
/// one for a page that is gone and for a wanted certificate, else the
/// detail that the server sent.
pub open spec fn refusal(kind: Kind, detail: Seq<char>) -> Seq<char> {
    if kind == Kind::Gone {
        gone()
    } else if wants_certificate(kind) {
        certificate_required()
    } else {
        detail
    }
}

/// The request that fetches `a` under `scheme`.
pub open spec fn spec_request(config: Config, scheme: Scheme, a: AddressView) -> Option<
    RequestView,
> {
    match scheme {
        Scheme::Gemini => crate::gemini::client::spec_request(a, config.trust_any_certificate),
        Scheme::Gopher => crate::gopher::client::spec_request(config.selector_rule, a),
        Scheme::Finger => crate::finger::client::spec_request(a),
    }
}

/// Where a visit stands after a Gemini status line was read as
/// `(kind, detail)`: a success is a page if its media type begins with
/// `text/` and a download if not; a redirect leads on; an input request
/// is a prompt; every other status ends the visit with an error.
pub open spec fn after_status(
    address: AddressView,
    body: Seq<u8>,
    hops: u8,
    kind: Kind,
    detail: Seq<char>,
) -> StateView {
    if kind == Kind::Success {
        if "text/"@.is_prefix_of(detail) {
            StateView::Terminal(
                OutcomeView::Success {
                    scheme: Scheme::Gemini,
                    address,
                    mime: Some(detail),
                    content: text_of(body),
                },
            )
        } else {
            StateView::Terminal(OutcomeView::Download { address, mime: detail, body })
        }
    } else if kind == Kind::RedirectTemporary || kind == Kind::RedirectPermanent {
        StateView::Redirecting { target: detail, hops }
    } else if kind == Kind::Input {
        StateView::Terminal(OutcomeView::Prompt { address, prompt: detail })
    } else {
        StateView::Terminal(OutcomeView::Error(refusal(kind, detail)))
    }
}

/// Where a visit stands after one step from `state`, given what happened
/// outside. Only a request that is out looks at the event.
pub open spec fn next_state(
    config: Config,
    state: StateView,
    event: EventView,
    h: Seq<AddressView>,
) -> StateView {
    match state {
        StateView::Resolving { scheme, reference, hops } => match spec_resolve(
            scheme,
            reference,
            h,
        ) {
            Ok(address) => match spec_request(config, scheme, address) {
                Some(request) => StateView::Fetching { scheme, address, request, hops },
                None => StateView::Terminal(OutcomeView::Error(no_request())),
            },
            Err(_) => StateView::Terminal(OutcomeView::Error(invalid_address())),
        },
        StateView::Fetching { scheme, address, request, hops } => match event {
            EventView::Nothing => state,
            EventView::Failed(message) => StateView::Terminal(OutcomeView::Error(message)),
            EventView::Fetched(raw) => match scheme {
                Scheme::Gemini => match crate::gemini::client::spec_split(raw) {
                    Some((meta, body)) => StateView::Interpreting { address, meta, body, hops },
                    None => StateView::Terminal(OutcomeView::Error(malformed_response())),
                },
                _ => StateView::Terminal(
                    OutcomeView::Success {
                        scheme,
                        address,
                        mime: None,
                        content: text_of(raw),
                    },
                ),
            },
        },
        StateView::Interpreting { address, meta, body, hops } => match spec_status(
            text_of(meta),
        ) {
            Ok((kind, detail)) => after_status(address, body, hops, kind, detail),
            Err(_) => StateView::Terminal(OutcomeView::Error(malformed_response())),
        },
        StateView::Redirecting { target, hops } => if hops < config.redirect_limit {
            StateView::Resolving {
                scheme: Scheme::Gemini,
                reference: target,
                hops: (hops + 1) as u8,
            }
        } else {
            StateView::Terminal(OutcomeView::Error(too_many_redirects()))
        },
        StateView::Terminal(_) => state,
    }
}

/// The page that a step from `state` to `next` has reached, if it has
/// reached one: the address of a success that `state` was not yet.
pub open spec fn reached(state: StateView, next: StateView) -> Option<AddressView> {
    match (state, next) {
        (StateView::Terminal(_), _) => None,
        (_, StateView::Terminal(OutcomeView::Success { address, .. })) => Some(address),
        _ => None,
    }
}

/// The history after a step from `state` to `next`: with the page that
/// the step reached as the current page, else unchanged.
pub open spec fn next_history(state: StateView, next: StateView, h: Seq<AddressView>) -> Seq<
    AddressView,
> {
    match reached(state, next) {
        Some(address) => h.push(address),
        None => h,
    }
}

/// What is to be done outside when a visit stands at `state`.
pub open spec fn spec_action(state: StateView) -> ActionView {
    match state {
        StateView::Fetching { request, .. } => ActionView::Fetch(request),
        StateView::Terminal(_) => ActionView::Finish,
        _ => ActionView::Continue,
    }
}

/// The state in which a visit of `reference` under `scheme` begins.
pub fn start(scheme: Scheme, reference: String) -> (r: State)
    ensures
        r@ == spec_start(scheme, reference@),
{
    State::Resolving { scheme, reference, hops: 0 }
}

/// Builds the request of [`spec_request`].
pub fn request(config: &Config, scheme: Scheme, address: &Address) -> (r: Option<Request>)
    ensures
        crate::client::view_request(r) == spec_request(*config, scheme, address@),
{
    match scheme {
        Scheme::Gemini => crate::gemini::client::request(address, config.trust_any_certificate),
        Scheme::Gopher => crate::gopher::client::request(address, config.selector_rule),
        Scheme::Finger => crate::finger::client::request(address),
    }
}

/// The message of [`refusal`].
pub fn refuse(status: &Status) -> (r: String)
    ensures
        r@ == refusal(status.spec_kind(), status.spec_detail()),
{
    match status.kind() {
        Kind::Gone => "Sorry page is gone.".to_owned(),
        Kind::ClientCertificateRequired
        | Kind::TransientCertificateRequired
        | Kind::AuthorisedCertificatedRequired
        | Kind::CertificateNotAccepted
        | Kind::FutureCertificateRejected
        | Kind::ExpiredCertificateRejected =>
            "You need a valid certificate to access this page.".to_owned(),
        _ => status.detail().to_owned(),
    }
}

/// Decides where a visit stands after the status `status` came for
/// `address` with the body `body`, as [`after_status`] says.
pub fn interpret(address: Address, body: Vec<u8>, hops: u8, status: Status) -> (r: State)
    ensures
        r@ == after_status(address@, body@, hops, status.spec_kind(), status.spec_detail()),
{
    match status.kind() {
        Kind::Success => {
            if starts_with(status.detail(), "text/") {
                let content = text(body.as_slice());
                State::Terminal(
                    Outcome::Success {
                        scheme: Scheme::Gemini,
                        address,
                        mime: Some(status.detail().to_owned()),
                        content,
                    },
                )
            } else {
                State::Terminal(
                    Outcome::Download { address, mime: status.detail().to_owned(), body },
                )
            }
        },
        Kind::RedirectTemporary | Kind::RedirectPermanent => State::Redirecting {
            target: status.detail().to_owned(),
            hops,
        },
        Kind::Input => State::Terminal(
            Outcome::Prompt { address, prompt: status.detail().to_owned() },
        ),
        _ => State::Terminal(Outcome::Error(refuse(&status))),
    }
}

/// The action of [`spec_action`].
pub fn action(state: &State) -> (r: Action)
    ensures
        r@ == spec_action(state@),
{
    match state {
        State::Fetching { request, .. } => Action::Fetch(request.duplicate()),
        State::Terminal(_) => Action::Finish,
        _ => Action::Continue,
    }
}

/// Takes one step of a visit. The result is the state after the step and
/// what is to be done outside before the next one. The history gets a
/// new current page exactly when the step ends the visit with a page.
pub fn step(config: &Config, state: State, event: Event, history: &mut History) -> (r: (
    State,
    Action,
))
    ensures
        r.0@ == next_state(*config, state@, event@, old(history)@),
        final(history)@ == next_history(state@, r.0@, old(history)@),
        r.1@ == spec_action(r.0@),
{
    let next = match state {
        State::Resolving { scheme, reference, hops } => {
            match resolve(scheme, reference.as_str(), history) {
                Ok(address) => match request(config, scheme, &address) {
                    Some(request) => State::Fetching { scheme, address, request, hops },
                    None => State::Terminal(
                        Outcome::Error("Cannot build a request for this address".to_owned()),
                    ),
                },
                Err(_) => State::Terminal(Outcome::Error("Invalid address".to_owned())),
            }
        },
        State::Fetching { scheme, address, request, hops } => match event {
            Event::Nothing => State::Fetching { scheme, address, request, hops },
            Event::Failed(e) => State::Terminal(Outcome::Error(e.message())),
            Event::Fetched(raw) => match scheme {
                Scheme::Gemini => match crate::gemini::client::response(raw.as_slice()) {
                    Ok((meta, body)) => State::Interpreting {
                        address,
                        meta: meta.unwrap(),
                        body,
                        hops,
                    },
                    Err(_) => State::Terminal(Outcome::Error("Malformed response".to_owned())),
                },
                _ => {
                    let content = text(raw.as_slice());
                    append(history, address.clone());
                    State::Terminal(Outcome::Success { scheme, address, mime: None, content })
                },
            },
        },
        State::Interpreting { address, meta, body, hops } => {
            let line = text(meta.as_slice());
            match Status::from_str(line.as_str()) {
                Ok(status) => {
                    let copy = address.clone();
                    let next = interpret(address, body, hops, status);
                    match &next {
                        State::Terminal(Outcome::Success { .. }) => {
                            append(history, copy);
                        },
                        _ => {},
                    }
                    next
                },
                Err(_) => State::Terminal(Outcome::Error("Malformed response".to_owned())),
            }
        },
        State::Redirecting { target, hops } => {
            if hops < config.redirect_limit {
                State::Resolving { scheme: Scheme::Gemini, reference: target, hops: hops + 1 }
            } else {
                State::Terminal(Outcome::Error("Too many redirects".to_owned()))
            }
        },
        State::Terminal(outcome) => State::Terminal(outcome),
    };
    let act = action(&next);
    (next, act)
}

/// The reference that answers a prompt: the address that asked, up to
/// the end of its path, a question mark, and the answer.
pub open spec fn spec_answer(address: AddressView, response: Seq<char>) -> Seq<char> {
    address.through_path + seq!['?'] + response
}

/// Builds the reference of [`spec_answer`], to be visited as a Gemini
/// reference.
pub fn answer(address: &Address, response: &str) -> (r: String)
    ensures
        r@ == spec_answer(address@, response@),
{
    proof {
        reveal_strlit("?");
        assert("?"@ =~= seq!['?']);
    }
    let mut s = String::from_str(address.through_path());
    s.append("?");
    s.append(response);
    s
}

/// What is visited when the reader goes back in the history `h`: the
/// page before the current one, under the protocol of its scheme. There
/// is nothing to visit with fewer than two pages, nor where the scheme
/// is none of the three.
pub open spec fn back_target(h: Seq<AddressView>) -> Option<(Scheme, Seq<char>)> {
    match previous(h) {
        Some(p) => match Scheme::spec_named(p.scheme) {
            Some(scheme) => Some((scheme, p.text)),
            None => None,
        },
        None => None,
    }
}

/// The history when the reader goes back in `h`: without the current
/// page and without the page before it, which the visit that follows
/// makes current again when it succeeds. A history of fewer than two
/// pages stays as it is.
pub open spec fn back_history(h: Seq<AddressView>) -> Seq<AddressView> {
    if h.len() >= 2 {
        h.subrange(0, h.len() - 2)
    } else {
        h
    }
}

/// Goes back: takes the current page and the one before it off the
/// history and says what to visit, as [`back_target`] and
/// [`back_history`] say.
pub fn go_back(history: &mut History) -> (r: Option<(Scheme, String)>)
    ensures
        final(history)@ == back_history(old(history)@),
        match r {
            Some((scheme, reference)) => Some((scheme, reference@)),
            None => None,
        } == back_target(old(history)@),
{
    match get_previous_url(history) {
        Some(p) => {
            forget_current(history);
            assert(history@ =~= back_history(old(history)@));
            match Scheme::named(p.scheme()) {
                Some(scheme) => Some((scheme, p.as_str().to_owned())),
                None => None,
            }
        },
        None => None,
    }
}

/// How many redirects a visit at `state` has followed.
pub open spec fn hops_of(state: StateView) -> int {
    match state {
        StateView::Resolving { hops, .. } => hops as int,
        StateView::Fetching { hops, .. } => hops as int,
        StateView::Interpreting { hops, .. } => hops as int,
        StateView::Redirecting { hops, .. } => hops as int,
        StateView::Terminal(_) => 0,
    }
}

/// An upper bound on the steps that a visit at `state` can still take,
/// not counting steps that wait for a request that is out.
pub open spec fn steps_left(config: Config, state: StateView) -> int {
    let rounds = config.redirect_limit - hops_of(state);
    match state {
        StateView::Resolving { .. } => 4 * rounds + 4,
        StateView::Fetching { .. } => 4 * rounds + 3,
        StateView::Interpreting { .. } => 4 * rounds + 2,
        StateView::Redirecting { .. } => 4 * rounds + 1,
        StateView::Terminal(_) => 0,
    }
}

/// The history changes only when a step ends the visit with a page, and
/// then by that page becoming the current one. A visit that is over
/// stays as it is.
pub proof fn lemma_history_grows_only_on_success(
    config: Config,
    state: StateView,
    event: EventView,
    h: Seq<AddressView>,
)
    ensures
        ({
            let next = next_state(config, state, event, h);
            let after = next_history(state, next, h);
            &&& after != h ==> next is Terminal && next->Terminal_0 is Success && after == h.push(
                next->Terminal_0->Success_address,
            )
            &&& state is Terminal ==> next == state && after == h
        }),
{
    let next = next_state(config, state, event, h);
    let after = next_history(state, next, h);
    if after != h {
        assert(reached(state, next) is Some);
    }
}

/// A reference that does not resolve, an address without a request and
/// an exchange that fails each end the visit with an error, and leave
/// the history as it is.
pub proof fn lemma_failures_end_in_error(
    config: Config,
    state: StateView,
    event: EventView,
    h: Seq<AddressView>,
)
    requires
        (state matches StateView::Resolving { scheme, reference, .. } && (spec_resolve(
            scheme,
            reference,
            h,
        ) is Err || spec_request(config, scheme, spec_resolve(scheme, reference, h).unwrap())
            is None)) || (state is Fetching && event is Failed),
    ensures
        next_state(config, state, event, h) is Terminal,
        next_state(config, state, event, h)->Terminal_0 is Error,
        next_history(state, next_state(config, state, event, h), h) == h,
{
}

/// Whatever comes back from a Gopher or Finger server is a page at the
/// address that was asked, and that address becomes the current page.
pub proof fn lemma_plain_fetch_always_succeeds(
    config: Config,
    state: StateView,
    raw: Seq<u8>,
    h: Seq<AddressView>,
)
    requires
        state is Fetching,
        state->Fetching_scheme != Scheme::Gemini,
    ensures
        ({
            let next = next_state(config, state, EventView::Fetched(raw), h);
            &&& next == StateView::Terminal(
                OutcomeView::Success {
                    scheme: state->Fetching_scheme,
                    address: state->Fetching_address,
                    mime: None,
                    content: text_of(raw),
                },
            )
            &&& next_history(state, next, h) == h.push(state->Fetching_address)
        }),
{
}

/// A Gemini response whose status line, in text `line`, is a success
/// with a media type that begins with `text/`, and whose body encodes the
/// text `page`, ends the visit with that text as the page, under the
/// media type of the status line, and the address becomes the current
/// page.
pub proof fn lemma_text_success_is_a_page(
    config: Config,
    address: AddressView,
    line: Seq<char>,
    page: Seq<char>,
    hops: u8,
    h: Seq<AddressView>,
)
    requires
        spec_status(line) is Ok,
        spec_status(line).unwrap().0 == Kind::Success,
        "text/"@.is_prefix_of(spec_status(line).unwrap().1),
    ensures
        ({
            let state = StateView::Interpreting {
                address,
                meta: vstd::utf8::encode_utf8(line),
                body: vstd::utf8::encode_utf8(page),
                hops,
            };
            let next = next_state(config, state, EventView::Nothing, h);
            &&& next == StateView::Terminal(
                OutcomeView::Success {
                    scheme: Scheme::Gemini,
                    address,
                    mime: Some(spec_status(line).unwrap().1),
                    content: page,
                },
            )
            &&& next_history(state, next, h) == h.push(address)
        }),
{
    lemma_text_of_encoded(line);
    lemma_text_of_encoded(page);
}

/// The history after a visit in `h` that ended as `outcome`: with the
/// page as the current one if the visit ended with a page, else `h`.
pub open spec fn visited(h: Seq<AddressView>, outcome: OutcomeView) -> Seq<AddressView> {
    match outcome {
        OutcomeView::Success { address, .. } => h.push(address),
        _ => h,
    }
}

/// Whether `event` can answer a request: the bytes that came back, or a
/// failure with its message.
pub open spec fn is_answer(event: EventView) -> bool {
    match event {
        EventView::Nothing => false,
        EventView::Fetched(_) => true,
        EventView::Failed(message) => FetchError::lead().is_prefix_of(message),
    }
}

/// Whether each of `answers` can answer a request.
pub open spec fn are_answers(answers: Seq<EventView>) -> bool {
    forall|i: int| 0 <= i < answers.len() ==> is_answer(#[trigger] answers[i])
}

/// Where a visit that stands at `state` in the history `h` comes to, and
/// the history then, when the requests that it sends are answered by
/// `answers`, one after the other: it takes step after step, and a
/// request that is out takes the next answer. It stops at its end, or at
/// a request for which no answer is left.
pub open spec fn spec_visit(
    config: Config,
    state: StateView,
    answers: Seq<EventView>,
    h: Seq<AddressView>,
) -> (StateView, Seq<AddressView>)
    decreases steps_left(config, state),
    when hops_of(state) <= config.redirect_limit
{
    if state is Terminal {
        (state, h)
    } else if state is Fetching {
        if answers.len() > 0 && is_answer(answers[0]) {
            let next = next_state(config, state, answers[0], h);
            spec_visit(config, next, answers.drop_first(), next_history(state, next, h))
        } else {
            (state, h)
        }
    } else {
        let next = next_state(config, state, EventView::Nothing, h);
        spec_visit(config, next, answers, next_history(state, next, h))
    }
}

/// The answer that a visit at `state` has in hand and has not yet taken:
/// `event` while a request is out, none otherwise.
pub open spec fn in_hand(state: StateView, event: EventView) -> Seq<EventView> {
    if state is Fetching {
        seq![event]
    } else {
        Seq::empty()
    }
}

/// One step of a visit that is not over takes the answer in hand, if
/// there is one, and leaves the rest of the answers to the steps that
/// follow.
pub proof fn lemma_visit_takes_a_step(
    config: Config,
    state: StateView,
    event: EventView,
    rest: Seq<EventView>,
    h: Seq<AddressView>,
)
    requires
        hops_of(state) <= config.redirect_limit,
        !(state is Terminal),
        state is Fetching ==> is_answer(event),
    ensures
        ({
            let next = next_state(config, state, event, h);
            spec_visit(config, state, in_hand(state, event) + rest, h) == spec_visit(
                config,
                next,
                rest,
                next_history(state, next, h),
            )
        }),
{
    let answers = in_hand(state, event) + rest;
    if state is Fetching {
        assert(answers[0] == event);
        assert(answers.drop_first() =~= rest);
    } else {
        assert(answers =~= rest);
        assert(next_state(config, state, event, h) == next_state(
            config,
            state,
            EventView::Nothing,
            h,
        ));
    }
}

/// The state in which a visit of `reference` under `scheme` begins.
pub open spec fn spec_start(scheme: Scheme, reference: Seq<char>) -> StateView {
    StateView::Resolving { scheme, reference, hops: 0 }
}

/// Visits `reference` under `scheme`: steps from the start to the end of
/// the visit, and has `client` run every exchange that a step asks for.
/// Whatever the servers answer, the visit ends, and it ends as the steps
/// say for the answers that came: there is a run of answers on which
/// [`spec_visit`] leads from the start to this outcome and this history.
/// So the history has a new current page exactly if the visit ended with
/// a page, and a reference that does not resolve, or resolves to an
/// address that no request can be built for, ends the visit with that
/// error before any exchange.
pub fn visit_url<C: Client>(
    client: &C,
    config: &Config,
    scheme: Scheme,
    reference: String,
    history: &mut History,
) -> (r: Outcome)
    ensures
        exists|answers: Seq<EventView>|
            are_answers(answers) && #[trigger] spec_visit(
                *config,
                spec_start(scheme, reference@),
                answers,
                old(history)@,
            ) == (StateView::Terminal(r@), final(history)@),
        final(history)@ == visited(old(history)@, r@),
        spec_resolve(scheme, reference@, old(history)@) is Err ==> r@ == OutcomeView::Error(
            invalid_address(),
        ),
        spec_resolve(scheme, reference@, old(history)@) is Ok && spec_request(
            *config,
            scheme,
            spec_resolve(scheme, reference@, old(history)@).unwrap(),
        ) is None ==> r@ == OutcomeView::Error(no_request()),
{
    let ghost first = spec_start(scheme, reference@);
    let ghost mut given: Seq<EventView> = Seq::empty();
    let mut state = start(scheme, reference);
    let mut event = Event::Nothing;
    assert forall|rest: Seq<EventView>|
        #[trigger] spec_visit(*config, first, given + rest, old(history)@) == spec_visit(
            *config,
            state@,
            in_hand(state@, event@) + rest,
            history@,
        ) by {
        assert(given + rest =~= in_hand(state@, event@) + rest);
    }
    loop
        invariant
            !(state@ is Terminal),
            hops_of(state@) <= config.redirect_limit,
            state@ is Fetching ==> is_answer(event@),
            history@ == old(history)@,
            first == spec_start(scheme, reference@),
            are_answers(given),
            forall|rest: Seq<EventView>|
                #[trigger] spec_visit(*config, first, given + rest, old(history)@) == spec_visit(
                    *config,
                    state@,
                    in_hand(state@, event@) + rest,
                    history@,
                ),
        decreases steps_left(*config, state@),
    {
        proof {
            lemma_visit_is_bounded(*config, state@, event@, history@);
        }
        let ghost before = state@;
        let ghost taken = event@;
        let (next, act) = step(config, state, event, history);
        assert forall|rest: Seq<EventView>|
            #[trigger] spec_visit(*config, first, given + rest, old(history)@) == spec_visit(
                *config,
                next@,
                rest,
                history@,
            ) by {
            lemma_visit_takes_a_step(*config, before, taken, rest, old(history)@);
        }
        match act {
            Action::Continue => {
                event = Event::Nothing;
                assert forall|rest: Seq<EventView>|
                    #[trigger] spec_visit(*config, first, given + rest, old(history)@)
                        == spec_visit(
                        *config,
                        next@,
                        in_hand(next@, event@) + rest,
                        history@,
                    ) by {
                    assert(in_hand(next@, event@) + rest =~= rest);
                }
            },
            Action::Fetch(request) => {
                event = match client.get_data(&request) {
                    Ok(raw) => Event::Fetched(raw),
                    Err(e) => {
                        assert(FetchError::lead().is_prefix_of(e.spec_message())) by {
                            assert(e.spec_message().subrange(0, FetchError::lead().len() as int)
                                =~= FetchError::lead());
                        }
                        Event::Failed(e)
                    },
                };
                proof {
                    let ghost earlier = given;
                    given = given.push(event@);
                    assert forall|rest: Seq<EventView>|
                        #[trigger] spec_visit(*config, first, given + rest, old(history)@)
                            == spec_visit(
                            *config,
                            next@,
                            in_hand(next@, event@) + rest,
                            history@,
                        ) by {
                        assert(given + rest =~= earlier + (seq![event@] + rest));
                    }
                }
            },
            Action::Finish => {
                match next {
                    State::Terminal(outcome) => {
                        proof {
                            let none = Seq::<EventView>::empty();
                            assert(given + none =~= given);
                            assert(spec_visit(*config, first, given + none, old(history)@) == (
                                next@,
                                history@,
                            ));
                            lemma_visit_without_exchange(
                                *config,
                                scheme,
                                reference@,
                                given,
                                old(history)@,
                            );
                        }
                        return outcome;
                    },
                    _ => {
                        event = Event::Nothing;
                    },
                }
            },
        }
        state = next;
    }
}

/// A visit of a reference that does not resolve ends with that error,
/// and so does a visit of an address that no request can be built for,
/// whatever answers were at hand: none of them is taken.
pub proof fn lemma_visit_without_exchange(
    config: Config,
    scheme: Scheme,
    reference: Seq<char>,
    answers: Seq<EventView>,
    h: Seq<AddressView>,
)
    ensures
        spec_resolve(scheme, reference, h) is Err ==> spec_visit(
            config,
            spec_start(scheme, reference),
            answers,
            h,
        ) == (StateView::Terminal(OutcomeView::Error(invalid_address())), h),
        spec_resolve(scheme, reference, h) is Ok && spec_request(
            config,
            scheme,
            spec_resolve(scheme, reference, h).unwrap(),
        ) is None ==> spec_visit(config, spec_start(scheme, reference), answers, h) == (
            StateView::Terminal(OutcomeView::Error(no_request())),
            h,
        ),
{
    let first = spec_start(scheme, reference);
    let next = next_state(config, first, EventView::Nothing, h);
    assert(spec_visit(config, first, answers, h) == spec_visit(
        config,
        next,
        answers,
        next_history(first, next, h),
    ));
}

/// A visit follows no more redirects than the limit, and every step
/// that does not wait for a request brings it nearer to its end: a visit
/// that starts at `state` is over after at most `steps_left` such steps.
pub proof fn lemma_visit_is_bounded(
    config: Config,
    state: StateView,
    event: EventView,
    h: Seq<AddressView>,
)
    requires
        hops_of(state) <= config.redirect_limit,
        state is Fetching ==> !(event is Nothing),
    ensures
        hops_of(next_state(config, state, event, h)) <= config.redirect_limit,
        steps_left(config, next_state(config, state, event, h)) >= 0,
        !(state is Terminal) ==> steps_left(config, next_state(config, state, event, h))
            < steps_left(config, state),
        state is Redirecting && hops_of(state) == config.redirect_limit ==> next_state(
            config,
            state,
            event,
            h,
        ) == StateView::Terminal(OutcomeView::Error(too_many_redirects())),
{
}

} // verus!
