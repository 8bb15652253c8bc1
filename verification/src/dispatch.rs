//! The dispatcher: maps a validated request onto the transport-level
//! notification payload, renders it for the debug flag, and decides the
//! outcome of the `info` diagnostic.

use vstd::prelude::*;
use vstd::string::StringExecFns;

use crate::digits::dec_str;
use crate::hint::{kind_word, Hint, HintModel};
use crate::request::{opt_hint_view, NotificationRequest};
use crate::urgency::UrgencyShim;

verus! {

/// The application name used when the request names none.
pub const DEFAULT_APP_NAME: &'static str = "toastify";

/// The transport-level notification object, ready for a single
/// synchronous show call.
#[derive(Debug)]
pub struct NotificationPayload {
    pub summary: String,
    pub body: Option<String>,
    /// Always concrete: the request's name, or the tool default.
    pub app_name: String,
    pub id: Option<u32>,
    pub icon: Option<String>,
    /// Positive time to live, in milliseconds.
    pub timeout_ms: Option<i32>,
    pub urgency: Option<UrgencyShim>,
    pub hint: Option<Hint>,
    /// Each label is passed to the transport as a category hint.
    pub categories: Vec<String>,
}

/// The mathematical model of a [`NotificationPayload`].
pub ghost struct PayloadModel {
    pub summary: Seq<char>,
    pub body: Option<Seq<char>>,
    pub app_name: Seq<char>,
    pub id: Option<u32>,
    pub icon: Option<Seq<char>>,
    pub timeout_ms: Option<i32>,
    pub urgency: Option<UrgencyShim>,
    pub hint: Option<HintModel>,
    pub categories: Seq<Seq<char>>,
}

impl View for NotificationPayload {
    type V = PayloadModel;

    open spec fn view(&self) -> PayloadModel {
        PayloadModel {
            summary: self.summary@,
            body: self.body.deep_view(),
            app_name: self.app_name@,
            id: self.id,
            icon: self.icon.deep_view(),
            timeout_ms: self.timeout_ms,
            urgency: self.urgency,
            hint: opt_hint_view(&self.hint),
            categories: self.categories.deep_view(),
        }
    }
}

impl PayloadModel {
    /// The timeout, when present, is positive, and the hint, when
    /// present, hides no separator.
    pub open spec fn wf(self) -> bool {
        &&& match self.timeout_ms {
            Option::Some(t) => t >= 1,
            Option::None => true,
        }
        &&& match self.hint {
            Option::Some(h) => !h.name.contains(':') && !h.value.contains(':'),
            Option::None => true,
        }
    }
}

/// The dispatcher's plan for one `send` invocation.
#[derive(Debug)]
pub struct SendPlan {
    pub payload: NotificationPayload,
    /// Also print the rendered payload to standard output.
    pub echo_debug: bool,
}

/// Composes the transport-level payload for a validated request.
///
/// Every field of the request is carried over unchanged; the
/// application name falls back to [`DEFAULT_APP_NAME`] when absent.
pub fn plan_send(req: NotificationRequest) -> (p: SendPlan)
    requires
        req.wf(),
    ensures
        p.payload@.summary == req@.title,
        p.payload@.body == req@.body,
        match req@.app_name {
            Option::Some(a) => p.payload@.app_name == a,
            Option::None => p.payload@.app_name == DEFAULT_APP_NAME@,
        },
        p.payload@.id == req@.extra.id,
        p.payload@.icon == req@.extra.icon,
        p.payload@.timeout_ms == req@.extra.expire_ms,
        p.payload@.urgency == req@.extra.urgency,
        p.payload@.hint == req@.extra.hint,
        p.payload@.categories == req@.extra.categories,
        p.echo_debug == req@.extra.debug,
        p.payload@.wf(),
{
    let NotificationRequest { title, body, app_name, extra } = req;
    let app_name = match app_name {
        Option::Some(a) => a,
        Option::None => DEFAULT_APP_NAME.to_owned(),
    };
    SendPlan {
        payload: NotificationPayload {
            summary: title,
            body,
            app_name,
            id: extra.id,
            icon: extra.icon,
            timeout_ms: extra.expire_ms,
            urgency: extra.urgency,
            hint: extra.hint,
            categories: extra.categories,
        },
        echo_debug: extra.debug,
    }
}

/// The word that names `u`.
pub open spec fn urgency_word(u: UrgencyShim) -> Seq<char> {
    match u {
        UrgencyShim::Low => "low"@,
        UrgencyShim::Normal => "normal"@,
        UrgencyShim::Critical => "critical"@,
    }
}

/// The word that names `u`.
pub fn urgency_name(u: UrgencyShim) -> (r: &'static str)
    ensures
        r@ == urgency_word(u),
{
    match u {
        UrgencyShim::Low => "low",
        UrgencyShim::Normal => "normal",
        UrgencyShim::Critical => "critical",
    }
}

/// The words of `ws` joined by single spaces.
pub open spec fn join_words(ws: Seq<Seq<char>>) -> Seq<char>
    decreases ws.len(),
{
    if ws.len() == 0 {
        Seq::empty()
    } else if ws.len() == 1 {
        ws[0]
    } else {
        join_words(ws.drop_last()) + seq![' '] + ws.last()
    }
}

/// Joins strings with single spaces.
fn join_space(items: &Vec<String>) -> (r: String)
    ensures
        r@ == join_words(items.deep_view()),
{
    let ghost ws = items.deep_view();
    let mut out = String::new();
    let mut i: usize = 0;
    proof {
        reveal_strlit(" ");
        assert(" "@ =~= seq![' ']);
        assert(ws.take(0) =~= Seq::<Seq<char>>::empty());
    }
    while i < items.len()
        invariant
            0 <= i <= items@.len(),
            ws == items.deep_view(),
            out@ == join_words(ws.take(i as int)),
        decreases items@.len() - i,
    {
        proof {
            reveal_strlit(" ");
            assert(" "@ =~= seq![' ']);
            assert(ws[i as int] == items@[i as int].deep_view());
            assert(ws.take(i as int + 1).drop_last() =~= ws.take(i as int));
            assert(ws.take(i as int + 1).last() == ws[i as int]);
        }
        if i > 0 {
            out.append(" ");
        }
        out.append(items[i].as_str());
        proof {
            if i == 0 {
                assert(ws.take(1).len() == 1);
                assert(out@ =~= join_words(ws.take(1)));
            } else {
                assert(out@ =~= join_words(ws.take(i as int)) + seq![' '] + ws[i as int]);
            }
        }
        i = i + 1;
    }
    proof {
        assert(ws.take(items@.len() as int) =~= ws);
    }
    out
}

/// A labelled line, or nothing when the field is absent.
pub open spec fn opt_line(label: Seq<char>, v: Option<Seq<char>>) -> Seq<char> {
    match v {
        Option::Some(s) => label + s + seq!['\n'],
        Option::None => Seq::empty(),
    }
}

/// The human-readable rendering the debug flag prints: one labelled line
/// per field that is present.
pub open spec fn render_model(p: PayloadModel) -> Seq<char> {
    "title: "@ + p.summary + seq!['\n'] + opt_line("body: "@, p.body) + "app name: "@ + p.app_name
        + seq!['\n'] + opt_line(
        "id: "@,
        match p.id {
            Option::Some(n) => Some(dec_str(n as nat)),
            Option::None => None,
        },
    ) + opt_line("icon: "@, p.icon) + opt_line(
        "expire time: "@,
        match p.timeout_ms {
            Option::Some(t) => Some(dec_str(t as nat)),
            Option::None => None,
        },
    ) + opt_line(
        "urgency: "@,
        match p.urgency {
            Option::Some(u) => Some(urgency_word(u)),
            Option::None => None,
        },
    ) + opt_line(
        "hint: "@,
        match p.hint {
            Option::Some(h) => Some(kind_word(h.kind) + seq![':'] + h.name + seq![':'] + h.value),
            Option::None => None,
        },
    ) + opt_line(
        "categories: "@,
        if p.categories.len() == 0 {
            None
        } else {
            Some(join_words(p.categories))
        },
    )
}

fn append_line(out: &mut String, label: &str, text: &str)
    ensures
        final(out)@ == old(out)@ + label@ + text@ + seq!['\n'],
{
    proof {
        reveal_strlit("\n");
        assert("\n"@ =~= seq!['\n']);
    }
    out.append(label);
    out.append(text);
    out.append("\n");
    proof {
        assert(out@ =~= old(out)@ + label@ + text@ + seq!['\n']);
    }
}

fn append_opt_line(out: &mut String, label: &str, v: &Option<String>)
    ensures
        final(out)@ == old(out)@ + opt_line(label@, v.deep_view()),
{
    match v {
        Option::None => {
            proof {
                assert(old(out)@ + opt_line(label@, v.deep_view()) =~= old(out)@);
            }
        },
        Option::Some(s) => {
            append_line(out, label, s.as_str());
            proof {
                assert(out@ =~= old(out)@ + opt_line(label@, v.deep_view()));
            }
        },
    }
}

/// Renders the composed payload as the debug flag prints it.
#[verifier::rlimit(100)]
pub fn render(p: &NotificationPayload) -> (r: String)
    requires
        p@.wf(),
    ensures
        r@ == render_model(p@),
{
    let mut out = String::new();
    append_line(&mut out, "title: ", p.summary.as_str());
    let ghost e1 = "title: "@ + p@.summary + seq!['\n'];
    proof {
        assert(out@ =~= e1);
    }
    append_opt_line(&mut out, "body: ", &p.body);
    let ghost e2 = e1 + opt_line("body: "@, p@.body);
    append_line(&mut out, "app name: ", p.app_name.as_str());
    let ghost e3 = e2 + "app name: "@ + p@.app_name + seq!['\n'];
    proof {
        assert(out@ =~= e3);
    }
    match &p.id {
        Option::None => (),
        Option::Some(n) => {
            let ns = crate::digits::u32_to_string(*n);
            append_line(&mut out, "id: ", ns.as_str());
        },
    }
    let ghost e4 = e3 + opt_line(
        "id: "@,
        match p@.id {
            Option::Some(n) => Some(dec_str(n as nat)),
            Option::None => None,
        },
    );
    proof {
        assert(out@ =~= e4);
    }
    append_opt_line(&mut out, "icon: ", &p.icon);
    let ghost e5 = e4 + opt_line("icon: "@, p@.icon);
    match p.timeout_ms {
        Option::None => (),
        Option::Some(t) => {
            let ts = crate::digits::u32_to_string(t as u32);
            append_line(&mut out, "expire time: ", ts.as_str());
        },
    }
    let ghost e6 = e5 + opt_line(
        "expire time: "@,
        match p@.timeout_ms {
            Option::Some(t) => Some(dec_str(t as nat)),
            Option::None => None,
        },
    );
    proof {
        assert(out@ =~= e6);
    }
    match p.urgency {
        Option::None => (),
        Option::Some(u) => {
            append_line(&mut out, "urgency: ", urgency_name(u));
        },
    }
    let ghost e7 = e6 + opt_line(
        "urgency: "@,
        match p@.urgency {
            Option::Some(u) => Some(urgency_word(u)),
            Option::None => None,
        },
    );
    proof {
        assert(out@ =~= e7);
    }
    match &p.hint {
        Option::None => (),
        Option::Some(h) => {
            let pat = h.pattern();
            append_line(&mut out, "hint: ", pat.as_str());
        },
    }
    let ghost e8 = e7 + opt_line(
        "hint: "@,
        match p@.hint {
            Option::Some(h) => Some(kind_word(h.kind) + seq![':'] + h.name + seq![':'] + h.value),
            Option::None => None,
        },
    );
    proof {
        assert(out@ =~= e8);
    }
    if p.categories.len() > 0 {
        let joined = join_space(&p.categories);
        append_line(&mut out, "categories: ", joined.as_str());
    }
    proof {
        assert(out@ =~= render_model(p@));
    }
    out
}

/// The transport's identity and version, as the `info` diagnostic
/// reports it.
#[derive(Debug)]
pub struct ServerInfo {
    pub name: String,
    pub vendor: String,
    pub version: String,
    pub spec_version: String,
}

/// The mathematical model of a [`ServerInfo`].
pub ghost struct ServerInfoModel {
    pub name: Seq<char>,
    pub vendor: Seq<char>,
    pub version: Seq<char>,
    pub spec_version: Seq<char>,
}

impl View for ServerInfo {
    type V = ServerInfoModel;

    open spec fn view(&self) -> ServerInfoModel {
        ServerInfoModel {
            name: self.name@,
            vendor: self.vendor@,
            version: self.version@,
            spec_version: self.spec_version@,
        }
    }
}

/// The identity line the `info` diagnostic prints on success.
pub open spec fn server_info_text(m: ServerInfoModel) -> Seq<char> {
    "server information: "@ + m.name + seq![' '] + m.vendor + seq![' '] + m.version + seq![' ']
        + m.spec_version
}

/// The capability line the `info` diagnostic prints on success.
pub open spec fn capabilities_text(caps: Seq<Seq<char>>) -> Seq<char> {
    "capabilities: "@ + join_words(caps)
}

/// What the `info` subcommand reports.
#[derive(Debug)]
pub struct InfoReport {
    /// The identity line, or the failure's own message.
    pub server_line: String,
    pub server_ok: bool,
    /// The capability line, or the failure's own message.
    pub caps_line: String,
    pub caps_ok: bool,
    /// Both queries succeeded; a partial failure makes the whole
    /// invocation fail.
    pub success: bool,
}

/// Decides the outcome of `info` from the two independent query results.
///
/// Each line reflects its own query alone, so the failure of one query
/// never hides the other's answer; the overall success requires both.
pub fn info_report(
    server_info: &Result<ServerInfo, String>,
    caps: &Result<Vec<String>, String>,
) -> (r: InfoReport)
    ensures
        r.server_ok <==> server_info is Ok,
        r.caps_ok <==> caps is Ok,
        r.success <==> server_info is Ok && caps is Ok,
        match server_info {
            Result::Ok(m) => r.server_line@ == server_info_text(m@),
            Result::Err(e) => r.server_line@ == e@,
        },
        match caps {
            Result::Ok(c) => r.caps_line@ == capabilities_text(c.deep_view()),
            Result::Err(e) => r.caps_line@ == e@,
        },
{
    proof {
        reveal_strlit(" ");
        assert(" "@ =~= seq![' ']);
    }
    let (server_line, server_ok): (String, bool) = match server_info {
        Result::Ok(m) => {
            let mut line: String = "server information: ".to_owned();
            line.append(m.name.as_str());
            line.append(" ");
            line.append(m.vendor.as_str());
            line.append(" ");
            line.append(m.version.as_str());
            line.append(" ");
            line.append(m.spec_version.as_str());
            proof {
                assert(line@ =~= server_info_text(m@));
            }
            (line, true)
        },
        Result::Err(e) => (e.clone(), false),
    };
    let (caps_line, caps_ok): (String, bool) = match caps {
        Result::Ok(c) => {
            let mut line: String = "capabilities: ".to_owned();
            let joined = join_space(c);
            line.append(joined.as_str());
            proof {
                assert(line@ =~= capabilities_text(c.deep_view()));
            }
            (line, true)
        },
        Result::Err(e) => (e.clone(), false),
    };
    let success = server_ok && caps_ok;
    InfoReport { server_line, server_ok, caps_line, caps_ok, success }
}

} // verus!
