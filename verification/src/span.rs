//! The span lifecycle: what is done to a request's span, computed as a plan of
//! commands. One plan covers one request: a start command carrying the
//! request metadata, then outcome-dependent attribute and status commands, then
//! exactly one end command, last.

use vstd::prelude::*;

use crate::meta::{RequestMeta, RequestMetaView};

verus! {

/// An attribute value: span attributes here are text or 64-bit integers.
#[derive(Clone, Debug, PartialEq)]
pub enum AttrValue {
    Text(String),
    Int(i64),
}

/// The mathematical value of an attribute value.
pub enum AttrValueView {
    Text(Seq<char>),
    Int(i64),
}

impl View for AttrValue {
    type V = AttrValueView;

    open spec fn view(&self) -> AttrValueView {
        match self {
            AttrValue::Text(s) => AttrValueView::Text(s@),
            AttrValue::Int(n) => AttrValueView::Int(*n),
        }
    }
}

/// One named span attribute.
#[derive(Clone, Debug, PartialEq)]
pub struct Attr {
    pub key: String,
    pub value: AttrValue,
}

/// The mathematical value of an attribute.
pub struct AttrView {
    pub key: Seq<char>,
    pub value: AttrValueView,
}

impl View for Attr {
    type V = AttrView;

    open spec fn view(&self) -> AttrView {
        AttrView { key: self.key@, value: self.value@ }
    }
}

/// One operation on a request's span, in the order the plan lists them:
/// `Start` creates the span (named after the request path, under a tracer
/// scoped to `operation`, with the metadata attributes); `SetAttr` appends an
/// attribute; `SetError` marks the span status as failed with a message; `End`
/// finishes the span.
#[derive(Clone, Debug, PartialEq)]
pub enum SpanCommand {
    Start { operation: String, name: String, attributes: Vec<Attr> },
    SetAttr { attr: Attr },
    SetError { message: String },
    End,
}

/// The mathematical value of a span command.
pub enum CommandView {
    Start { operation: Seq<char>, name: Seq<char>, attributes: Seq<AttrView> },
    SetAttr { attr: AttrView },
    SetError { message: Seq<char> },
    End,
}

impl View for SpanCommand {
    type V = CommandView;

    open spec fn view(&self) -> CommandView {
        match self {
            SpanCommand::Start { operation, name, attributes } => CommandView::Start {
                operation: operation@,
                name: name@,
                attributes: attributes@.map(|i: int, a: Attr| a@),
            },
            SpanCommand::SetAttr { attr } => CommandView::SetAttr { attr: attr@ },
            SpanCommand::SetError { message } => CommandView::SetError { message: message@ },
            SpanCommand::End => CommandView::End,
        }
    }
}

/// The views of a list of commands.
pub open spec fn cmds_view(cmds: Seq<SpanCommand>) -> Seq<CommandView> {
    cmds.map(|i: int, c: SpanCommand| c@)
}

/// How the wrapped component's invocation resolved: a response with its status
/// code, or an error with its string form.
#[derive(Clone, Debug, PartialEq)]
pub enum Outcome {
    Success { status: u16 },
    Failure { message: String },
}

/// The mathematical value of an outcome.
pub enum OutcomeView {
    Success { status: u16 },
    Failure { message: Seq<char> },
}

impl View for Outcome {
    type V = OutcomeView;

    open spec fn view(&self) -> OutcomeView {
        match self {
            Outcome::Success { status } => OutcomeView::Success { status: *status },
            Outcome::Failure { message } => OutcomeView::Failure { message: message@ },
        }
    }
}

/// The standardized reason phrase for a status code, when one exists.
pub uninterp spec fn canonical_reason_of(code: u16) -> Option<Seq<char>>;

/// Relies on `http::StatusCode::canonical_reason` (reached through
/// `StatusCode::from_u16`): the standardized reason phrase, a pure lookup that
/// depends on the numeric code alone; codes without a standardized phrase (and
/// codes outside 100..=999, which `from_u16` refuses) give `None`.
#[verifier::external_body]
fn canonical_reason(code: u16) -> (r: Option<String>)
    ensures
        match r {
            Some(s) => canonical_reason_of(code) == Some(s@),
            None => canonical_reason_of(code) is None,
        },
{
    match http::StatusCode::from_u16(code) {
        Ok(status) => match status.canonical_reason() {
            Some(reason) => Some(reason.to_string()),
            None => None,
        },
        Err(_) => None,
    }
}

/// Whether a status code denotes a server error.
pub open spec fn is_server_error(status: u16) -> bool {
    500 <= status < 600
}

/// The status-code attribute.
pub open spec fn status_attr(code: i64) -> AttrView {
    AttrView { key: "http.status_code"@, value: AttrValueView::Int(code) }
}

/// The reason phrase of a status code, or the empty string when it has none.
pub open spec fn reason_or_empty(status: u16) -> Seq<char> {
    match canonical_reason_of(status) {
        Some(s) => s,
        None => Seq::empty(),
    }
}

/// The attributes a span starts with: the metadata snapshot under the fixed
/// attribute-key schema, in this order.
pub open spec fn start_attrs(m: RequestMetaView) -> Seq<AttrView> {
    seq![
        AttrView { key: "http.url"@, value: AttrValueView::Text(m.url) },
        AttrView { key: "http.method"@, value: AttrValueView::Text(m.method) },
        AttrView { key: "http.flavor"@, value: AttrValueView::Text(m.version) },
        AttrView { key: "http.user_agent"@, value: AttrValueView::Text(m.user_agent) },
        AttrView { key: "http.host"@, value: AttrValueView::Text(m.host) },
        AttrView { key: "http.scheme"@, value: AttrValueView::Text(m.scheme) },
        AttrView { key: "http.client_ip"@, value: AttrValueView::Text(m.client_ip) },
    ]
}

/// The command that opens a request's span: named after the request path,
/// under a tracer scoped to the operation name, with the metadata attributes.
pub open spec fn start_command(operation: Seq<char>, m: RequestMetaView) -> CommandView {
    CommandView::Start { operation, name: m.path, attributes: start_attrs(m) }
}

/// The commands that finalize a span once the outcome is known.
///
/// A response: its numeric status becomes the status-code attribute, a server
/// error (5xx) additionally marks the span failed with the status's reason
/// phrase, and the span is ended. An error: the status-code attribute is 500,
/// the error's string form becomes the error-message attribute and the failure
/// message, and the span is ended.
pub open spec fn finish_plan(o: OutcomeView) -> Seq<CommandView> {
    match o {
        OutcomeView::Success { status } => if is_server_error(status) {
            seq![
                CommandView::SetAttr { attr: status_attr(status as i64) },
                CommandView::SetError { message: reason_or_empty(status) },
                CommandView::End,
            ]
        } else {
            seq![CommandView::SetAttr { attr: status_attr(status as i64) }, CommandView::End]
        },
        OutcomeView::Failure { message } => seq![
            CommandView::SetAttr { attr: status_attr(500) },
            CommandView::SetAttr {
                attr: AttrView { key: "error.msg"@, value: AttrValueView::Text(message) },
            },
            CommandView::SetError { message },
            CommandView::End,
        ],
    }
}

/// Everything one handled request does to its span.
pub open spec fn request_plan(
    operation: Seq<char>,
    m: RequestMetaView,
    o: OutcomeView,
) -> Seq<CommandView> {
    seq![start_command(operation, m)] + finish_plan(o)
}

/// The number of start commands in a list.
pub open spec fn count_starts(p: Seq<CommandView>) -> nat
    decreases p.len(),
{
    if p.len() == 0 {
        0
    } else {
        (if p.first() is Start {
            1nat
        } else {
            0nat
        }) + count_starts(p.drop_first())
    }
}

/// The number of end commands in a list.
pub open spec fn count_ends(p: Seq<CommandView>) -> nat
    decreases p.len(),
{
    if p.len() == 0 {
        0
    } else {
        (if p.first() is End {
            1nat
        } else {
            0nat
        }) + count_ends(p.drop_first())
    }
}

proof fn lemma_count_concat(a: Seq<CommandView>, b: Seq<CommandView>)
    ensures
        count_starts(a + b) == count_starts(a) + count_starts(b),
        count_ends(a + b) == count_ends(a) + count_ends(b),
    decreases a.len(),
{
    if a.len() == 0 {
        assert(a + b =~= b);
    } else {
        assert((a + b).drop_first() =~= a.drop_first() + b);
        lemma_count_concat(a.drop_first(), b);
    }
}

proof fn lemma_count_starts_none(p: Seq<CommandView>)
    requires
        forall|i: int| 0 <= i < p.len() ==> !(#[trigger] p[i] is Start),
    ensures
        count_starts(p) == 0,
    decreases p.len(),
{
    if p.len() > 0 {
        lemma_count_starts_none(p.drop_first());
    }
}

proof fn lemma_count_ends_none(p: Seq<CommandView>)
    requires
        forall|i: int| 0 <= i < p.len() ==> !(#[trigger] p[i] is End),
    ensures
        count_ends(p) == 0,
    decreases p.len(),
{
    if p.len() > 0 {
        lemma_count_ends_none(p.drop_first());
    }
}

proof fn lemma_count_starts_single(p: Seq<CommandView>, k: int)
    requires
        0 <= k < p.len(),
        p[k] is Start,
        forall|i: int| 0 <= i < p.len() && i != k ==> !(#[trigger] p[i] is Start),
    ensures
        count_starts(p) == 1,
    decreases p.len(),
{
    if k == 0 {
        lemma_count_starts_none(p.drop_first());
    } else {
        lemma_count_starts_single(p.drop_first(), k - 1);
    }
}

proof fn lemma_count_ends_single(p: Seq<CommandView>, k: int)
    requires
        0 <= k < p.len(),
        p[k] is End,
        forall|i: int| 0 <= i < p.len() && i != k ==> !(#[trigger] p[i] is End),
    ensures
        count_ends(p) == 1,
    decreases p.len(),
{
    if k == 0 {
        lemma_count_ends_none(p.drop_first());
    } else {
        lemma_count_ends_single(p.drop_first(), k - 1);
    }
}

/// The lifecycle invariant of one handled request, whatever its metadata and
/// outcome: the plan opens with exactly one start command, it closes with
/// exactly one end command, the end stands last, and every attribute and
/// status command stands before the end.
pub proof fn lemma_request_plan_shape(operation: Seq<char>, m: RequestMetaView, o: OutcomeView)
    ensures
        count_starts(request_plan(operation, m, o)) == 1,
        count_ends(request_plan(operation, m, o)) == 1,
        request_plan(operation, m, o).len() >= 3,
        request_plan(operation, m, o)[0] == start_command(operation, m),
        request_plan(operation, m, o).last() is End,
        forall|i: int|
            0 <= i < request_plan(operation, m, o).len() - 1 ==> !(#[trigger] request_plan(
                operation,
                m,
                o,
            )[i] is End),
        forall|i: int|
            1 <= i < request_plan(operation, m, o).len() ==> !(#[trigger] request_plan(
                operation,
                m,
                o,
            )[i] is Start),
{
    let p = request_plan(operation, m, o);
    let f = finish_plan(o);
    assert(p.len() == 1 + f.len());
    assert forall|j: int| 0 <= j < f.len() implies !(#[trigger] f[j] is Start) && (f[j] is End <==> j
        == f.len() - 1) by {
        match o {
            OutcomeView::Success { status } => {
                if is_server_error(status) {
                    assert(f.len() == 3);
                } else {
                    assert(f.len() == 2);
                }
            },
            OutcomeView::Failure { message } => {
                assert(f.len() == 4);
            },
        }
    }
    assert(forall|i: int| 1 <= i < p.len() ==> #[trigger] p[i] == f[i - 1]);
    lemma_count_starts_single(p, 0);
    lemma_count_ends_single(p, p.len() - 1);
}

/// A list of commands that some handled request produces.
pub open spec fn is_request_plan(p: Seq<CommandView>) -> bool {
    exists|operation: Seq<char>, m: RequestMetaView, o: OutcomeView|
        p == request_plan(operation, m, o)
}

/// Over any number of completed requests, successes and errors alike, the
/// recorded commands hold exactly one span start and one span end per request:
/// N requests give N starts and N ends.
pub proof fn lemma_trace_balance(plans: Seq<Seq<CommandView>>)
    requires
        forall|i: int| 0 <= i < plans.len() ==> is_request_plan(#[trigger] plans[i]),
    ensures
        count_starts(plans.flatten()) == plans.len(),
        count_ends(plans.flatten()) == plans.len(),
    decreases plans.len(),
{
    if plans.len() == 0 {
        assert(plans.flatten() =~= Seq::<CommandView>::empty());
    } else {
        let first = plans.first();
        let rest = plans.drop_first();
        assert(forall|i: int| 0 <= i < rest.len() ==> #[trigger] rest[i] == plans[i + 1]);
        assert(forall|i: int| 0 <= i < rest.len() ==> is_request_plan(#[trigger] rest[i]));
        lemma_trace_balance(rest);
        assert(is_request_plan(plans[0]));
        let (operation, m, o) = choose|operation: Seq<char>, m: RequestMetaView, o: OutcomeView|
            first == request_plan(operation, m, o);
        lemma_request_plan_shape(operation, m, o);
        lemma_count_concat(first, rest.flatten());
        assert(plans.flatten() == first + rest.flatten());
    }
}

/// Build the start command for a request's span.
pub fn span_start(operation: &str, meta: &RequestMeta) -> (c: SpanCommand)
    ensures
        c@ == start_command(operation@, meta@),
{
    let mut attributes: Vec<Attr> = Vec::new();
    attributes.push(Attr { key: "http.url".to_owned(), value: AttrValue::Text(meta.url.clone()) });
    attributes.push(
        Attr { key: "http.method".to_owned(), value: AttrValue::Text(meta.method.clone()) },
    );
    attributes.push(
        Attr { key: "http.flavor".to_owned(), value: AttrValue::Text(meta.version.clone()) },
    );
    attributes.push(
        Attr { key: "http.user_agent".to_owned(), value: AttrValue::Text(meta.user_agent.clone()) },
    );
    attributes.push(
        Attr { key: "http.host".to_owned(), value: AttrValue::Text(meta.host.clone()) },
    );
    attributes.push(
        Attr { key: "http.scheme".to_owned(), value: AttrValue::Text(meta.scheme.clone()) },
    );
    attributes.push(
        Attr { key: "http.client_ip".to_owned(), value: AttrValue::Text(meta.client_ip.clone()) },
    );
    let c = SpanCommand::Start {
        operation: operation.to_owned(),
        name: meta.path.clone(),
        attributes,
    };
    proof {
        assert(c@->Start_attributes =~= start_attrs(meta@));
    }
    c
}

/// Build the commands that finalize a request's span from its outcome.
pub fn span_finish(outcome: &Outcome) -> (cmds: Vec<SpanCommand>)
    ensures
        cmds_view(cmds@) == finish_plan(outcome@),
{
    let mut cmds: Vec<SpanCommand> = Vec::new();
    match outcome {
        Outcome::Success { status } => {
            let code: u16 = *status;
            cmds.push(
                SpanCommand::SetAttr {
                    attr: Attr {
                        key: "http.status_code".to_owned(),
                        value: AttrValue::Int(code as i64),
                    },
                },
            );
            if 500 <= code && code < 600 {
                let message = match canonical_reason(code) {
                    Some(reason) => reason,
                    None => String::new(),
                };
                cmds.push(SpanCommand::SetError { message });
            }
            cmds.push(SpanCommand::End);
        },
        Outcome::Failure { message } => {
            cmds.push(
                SpanCommand::SetAttr {
                    attr: Attr { key: "http.status_code".to_owned(), value: AttrValue::Int(500) },
                },
            );
            cmds.push(
                SpanCommand::SetAttr {
                    attr: Attr {
                        key: "error.msg".to_owned(),
                        value: AttrValue::Text(message.clone()),
                    },
                },
            );
            cmds.push(SpanCommand::SetError { message: message.clone() });
            cmds.push(SpanCommand::End);
        },
    }
    proof {
        assert(cmds_view(cmds@) =~= finish_plan(outcome@));
    }
    cmds
}

} // verus!
