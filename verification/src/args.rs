//! The command-line grammar: tokens in, a validated command out.

use vstd::prelude::*;

use crate::digits::{all_digits, dec_val, parse_positive_i32, parse_u32};
use crate::hint::{parse_hint, spec_parse_hint, Hint, HintError};
use crate::request::{
    opt_hint_view, ExtensionModel, NotificationRequest, PlatformExtension, RequestModel,
};
use crate::text::str_eq;
use crate::urgency::{parse_urgency, urgency_of_word, UrgencyShim};

verus! {

/// A parsed invocation: one of the three subcommands.
#[derive(Debug, PartialEq, Eq)]
pub enum Command {
    /// Run the diagnostic notification-receiving listener.
    Server,
    /// Query and print the transport's identity and capabilities.
    Info,
    /// Show one notification.
    Send(NotificationRequest),
}

/// The mathematical model of a [`Command`].
pub ghost enum CommandModel {
    Server,
    Info,
    Send(RequestModel),
}

impl View for Command {
    type V = CommandModel;

    open spec fn view(&self) -> CommandModel {
        match self {
            Command::Server => CommandModel::Server,
            Command::Info => CommandModel::Info,
            Command::Send(r) => CommandModel::Send(r@),
        }
    }
}

/// Why an argument vector was rejected.
#[derive(Clone, Copy, Debug, PartialEq, Eq, Structural)]
pub enum ArgError {
    /// No subcommand was given.
    MissingSubcommand,
    /// The first token names no subcommand.
    UnknownSubcommand,
    /// The subcommand exists only on platforms with a listenable daemon.
    UnsupportedSubcommand,
    /// A positional argument beyond those the grammar admits.
    UnexpectedArgument,
    /// `send` was given no title.
    MissingTitle,
    /// The title must not be empty.
    EmptyTitle,
    /// A flag that takes a value stood last.
    MissingFlagValue,
    /// A flag that may be given once was given twice.
    RepeatedFlag,
    /// A token that looks like a flag but names none.
    UnknownFlag,
    /// The id is not a decimal number fitting a 32-bit unsigned integer.
    InvalidId,
    /// The expiration is not a positive decimal number of milliseconds.
    InvalidExpireTime,
    /// The urgency is not one of `low`, `normal`, `critical`.
    InvalidUrgency,
    /// The hint string was rejected.
    InvalidHint(HintError),
}

/// The user-facing description of `e`.
pub open spec fn error_text(e: ArgError) -> Seq<char> {
    match e {
        ArgError::MissingSubcommand => "no subcommand given"@,
        ArgError::UnknownSubcommand => "unknown subcommand"@,
        ArgError::UnsupportedSubcommand => "this subcommand is not available on this platform"@,
        ArgError::UnexpectedArgument => "unexpected extra argument"@,
        ArgError::MissingTitle => "a title is required"@,
        ArgError::EmptyTitle => "the title must not be empty"@,
        ArgError::MissingFlagValue => "this flag needs a value"@,
        ArgError::RepeatedFlag => "this flag was given more than once"@,
        ArgError::UnknownFlag => "unknown flag"@,
        ArgError::InvalidId => "the id must be a number within 32 unsigned bits"@,
        ArgError::InvalidExpireTime => "the expire time must be a positive number of milliseconds"@,
        ArgError::InvalidUrgency => "the urgency must be low, normal or critical"@,
        ArgError::InvalidHint(HintError::WrongSegmentCount)
            => "the hint needs exactly three ':'-separated segments"@,
        ArgError::InvalidHint(HintError::UnknownValueType)
            => "the hint type must be int, double, string or byte"@,
    }
}

impl ArgError {
    /// The user-facing description of this error.
    pub fn message(&self) -> (r: String)
        ensures
            r@ == error_text(*self),
    {
        let text: &str = match self {
            ArgError::MissingSubcommand => "no subcommand given",
            ArgError::UnknownSubcommand => "unknown subcommand",
            ArgError::UnsupportedSubcommand => "this subcommand is not available on this platform",
            ArgError::UnexpectedArgument => "unexpected extra argument",
            ArgError::MissingTitle => "a title is required",
            ArgError::EmptyTitle => "the title must not be empty",
            ArgError::MissingFlagValue => "this flag needs a value",
            ArgError::RepeatedFlag => "this flag was given more than once",
            ArgError::UnknownFlag => "unknown flag",
            ArgError::InvalidId => "the id must be a number within 32 unsigned bits",
            ArgError::InvalidExpireTime => "the expire time must be a positive number of milliseconds",
            ArgError::InvalidUrgency => "the urgency must be low, normal or critical",
            ArgError::InvalidHint(HintError::WrongSegmentCount)
                => "the hint needs exactly three ':'-separated segments",
            ArgError::InvalidHint(HintError::UnknownValueType)
                => "the hint type must be int, double, string or byte",
        };
        text.to_owned()
    }
}

pub open spec fn is_app_flag(t: Seq<char>) -> bool {
    t == "-a"@ || t == "--app-name"@
}

pub open spec fn is_icon_flag(t: Seq<char>) -> bool {
    t == "-i"@ || t == "--icon"@
}

pub open spec fn is_expire_flag(t: Seq<char>) -> bool {
    t == "-t"@ || t == "--expire-time"@
}

pub open spec fn is_category_flag(t: Seq<char>) -> bool {
    t == "-c"@ || t == "--categories"@
}

pub open spec fn is_hint_flag(t: Seq<char>) -> bool {
    t == "--hint"@
}

pub open spec fn is_urgency_flag(t: Seq<char>) -> bool {
    t == "-u"@ || t == "--urgency"@
}

pub open spec fn is_debug_flag(t: Seq<char>) -> bool {
    t == "-d"@ || t == "--debug"@
}

/// A valid id token: a decimal number within 32 unsigned bits.
pub open spec fn valid_id(t: Seq<char>) -> bool {
    t.len() > 0 && all_digits(t) && dec_val(t) <= u32::MAX
}

/// A valid expiration token: a positive decimal number of milliseconds
/// within 32 signed bits.
pub open spec fn valid_expire(t: Seq<char>) -> bool {
    t.len() > 0 && all_digits(t) && 1 <= dec_val(t) <= i32::MAX
}

/// What `send` has gathered so far while walking its tokens.
pub ghost struct SendAccModel {
    pub title: Option<Seq<char>>,
    pub body: Option<Seq<char>>,
    pub app_name: Option<Seq<char>>,
    pub id: Option<u32>,
    pub icon: Option<Seq<char>>,
    pub expire_ms: Option<i32>,
    pub urgency: Option<UrgencyShim>,
    pub categories: Seq<Seq<char>>,
    pub hint: Option<crate::hint::HintModel>,
    pub debug: bool,
}

/// The state before any `send` token is read.
pub open spec fn empty_acc() -> SendAccModel {
    SendAccModel {
        title: None,
        body: None,
        app_name: None,
        id: None,
        icon: None,
        expire_ms: None,
        urgency: None,
        categories: Seq::empty(),
        hint: None,
        debug: false,
    }
}

/// The grammar of `send`, one token at a time.
///
/// Flags may stand anywhere; positional tokens fill the title, the body
/// and the id in that order. Each flag but `--categories` may be given
/// at most once.
pub open spec fn spec_parse_send(toks: Seq<Seq<char>>, acc: SendAccModel) -> Result<
    RequestModel,
    ArgError,
>
    decreases toks.len(),
{
    if toks.len() == 0 {
        match acc.title {
            Option::None => Err(ArgError::MissingTitle),
            Option::Some(t) => if t.len() == 0 {
                Err(ArgError::EmptyTitle)
            } else {
                Ok(
                    RequestModel {
                        title: t,
                        body: acc.body,
                        app_name: acc.app_name,
                        extra: ExtensionModel {
                            id: acc.id,
                            icon: acc.icon,
                            expire_ms: acc.expire_ms,
                            urgency: acc.urgency,
                            categories: acc.categories,
                            hint: acc.hint,
                            debug: acc.debug,
                        },
                    },
                )
            },
        }
    } else {
        let t = toks[0];
        if is_app_flag(t) {
            if toks.len() < 2 {
                Err(ArgError::MissingFlagValue)
            } else if acc.app_name is Some {
                Err(ArgError::RepeatedFlag)
            } else {
                spec_parse_send(toks.skip(2), SendAccModel { app_name: Some(toks[1]), ..acc })
            }
        } else if is_icon_flag(t) {
            if toks.len() < 2 {
                Err(ArgError::MissingFlagValue)
            } else if acc.icon is Some {
                Err(ArgError::RepeatedFlag)
            } else {
                spec_parse_send(toks.skip(2), SendAccModel { icon: Some(toks[1]), ..acc })
            }
        } else if is_expire_flag(t) {
            if toks.len() < 2 {
                Err(ArgError::MissingFlagValue)
            } else if acc.expire_ms is Some {
                Err(ArgError::RepeatedFlag)
            } else if !valid_expire(toks[1]) {
                Err(ArgError::InvalidExpireTime)
            } else {
                spec_parse_send(
                    toks.skip(2),
                    SendAccModel { expire_ms: Some(dec_val(toks[1]) as i32), ..acc },
                )
            }
        } else if is_category_flag(t) {
            if toks.len() < 2 {
                Err(ArgError::MissingFlagValue)
            } else {
                spec_parse_send(
                    toks.skip(2),
                    SendAccModel { categories: acc.categories.push(toks[1]), ..acc },
                )
            }
        } else if is_hint_flag(t) {
            if toks.len() < 2 {
                Err(ArgError::MissingFlagValue)
            } else if acc.hint is Some {
                Err(ArgError::RepeatedFlag)
            } else {
                match spec_parse_hint(toks[1]) {
                    Err(e) => Err(ArgError::InvalidHint(e)),
                    Ok(h) => spec_parse_send(toks.skip(2), SendAccModel { hint: Some(h), ..acc }),
                }
            }
        } else if is_urgency_flag(t) {
            if toks.len() < 2 {
                Err(ArgError::MissingFlagValue)
            } else if acc.urgency is Some {
                Err(ArgError::RepeatedFlag)
            } else {
                match urgency_of_word(toks[1]) {
                    Option::None => Err(ArgError::InvalidUrgency),
                    Option::Some(u) => spec_parse_send(
                        toks.skip(2),
                        SendAccModel { urgency: Some(u), ..acc },
                    ),
                }
            }
        } else if is_debug_flag(t) {
            if acc.debug {
                Err(ArgError::RepeatedFlag)
            } else {
                spec_parse_send(toks.skip(1), SendAccModel { debug: true, ..acc })
            }
        } else if t.len() > 0 && t[0] == '-' {
            Err(ArgError::UnknownFlag)
        } else if acc.title is None {
            spec_parse_send(toks.skip(1), SendAccModel { title: Some(t), ..acc })
        } else if acc.body is None {
            spec_parse_send(toks.skip(1), SendAccModel { body: Some(t), ..acc })
        } else if acc.id is None {
            if !valid_id(t) {
                Err(ArgError::InvalidId)
            } else {
                spec_parse_send(toks.skip(1), SendAccModel { id: Some(dec_val(t) as u32), ..acc })
            }
        } else {
            Err(ArgError::UnexpectedArgument)
        }
    }
}

/// The grammar of the whole argument vector (without the program name).
///
/// `daemon_diagnostics` says whether this platform offers the `server`
/// and `info` subcommands.
pub open spec fn spec_parse_command(toks: Seq<Seq<char>>, daemon_diagnostics: bool) -> Result<
    CommandModel,
    ArgError,
> {
    if toks.len() == 0 {
        Err(ArgError::MissingSubcommand)
    } else if toks[0] == "send"@ {
        match spec_parse_send(toks.skip(1), empty_acc()) {
            Ok(r) => Ok(CommandModel::Send(r)),
            Err(e) => Err(e),
        }
    } else if toks[0] == "server"@ {
        if !daemon_diagnostics {
            Err(ArgError::UnsupportedSubcommand)
        } else if toks.len() != 1 {
            Err(ArgError::UnexpectedArgument)
        } else {
            Ok(CommandModel::Server)
        }
    } else if toks[0] == "info"@ {
        if !daemon_diagnostics {
            Err(ArgError::UnsupportedSubcommand)
        } else if toks.len() != 1 {
            Err(ArgError::UnexpectedArgument)
        } else {
            Ok(CommandModel::Info)
        }
    } else {
        Err(ArgError::UnknownSubcommand)
    }
}

/// The model of the `send` state gathered in the parser's locals.
pub open spec fn acc_view(
    title: &Option<String>,
    body: &Option<String>,
    app_name: &Option<String>,
    id: Option<u32>,
    icon: &Option<String>,
    expire_ms: Option<i32>,
    urgency: Option<UrgencyShim>,
    categories: &Vec<String>,
    hint: &Option<Hint>,
    debug: bool,
) -> SendAccModel {
    SendAccModel {
        title: title.deep_view(),
        body: body.deep_view(),
        app_name: app_name.deep_view(),
        id: id,
        icon: icon.deep_view(),
        expire_ms: expire_ms,
        urgency: urgency,
        categories: categories.deep_view(),
        hint: opt_hint_view(hint),
        debug: debug,
    }
}

/// Parses the tokens of `send`, starting at `start`.
fn parse_send(tokens: &Vec<String>, start: usize) -> (r: Result<NotificationRequest, ArgError>)
    requires
        start <= tokens@.len(),
    ensures
        match r {
            Ok(req) => spec_parse_send(tokens.deep_view().skip(start as int), empty_acc())
                == Ok::<RequestModel, ArgError>(req@) && req.wf(),
            Err(e) => spec_parse_send(tokens.deep_view().skip(start as int), empty_acc())
                == Err::<RequestModel, ArgError>(e),
        },
{
    let ghost toksv = tokens.deep_view();
    let ghost goal = spec_parse_send(toksv.skip(start as int), empty_acc());
    let n = tokens.len();
    let mut i: usize = start;
    let mut title: Option<String> = None;
    let mut body: Option<String> = None;
    let mut app_name: Option<String> = None;
    let mut id: Option<u32> = None;
    let mut icon: Option<String> = None;
    let mut expire_ms: Option<i32> = None;
    let mut urgency: Option<UrgencyShim> = None;
    let mut categories: Vec<String> = Vec::new();
    let mut hint: Option<Hint> = None;
    let mut debug: bool = false;
    proof {
        assert(categories.deep_view() =~= Seq::<Seq<char>>::empty());
        assert(acc_view(
            &title,
            &body,
            &app_name,
            id,
            &icon,
            expire_ms,
            urgency,
            &categories,
            &hint,
            debug,
        ) == empty_acc());
    }
    while i < n
        invariant
            start <= i <= n,
            n == tokens@.len(),
            toksv == tokens.deep_view(),
            goal == spec_parse_send(toksv.skip(start as int), empty_acc()),
            goal == spec_parse_send(
                toksv.skip(i as int),
                acc_view(
                    &title,
                    &body,
                    &app_name,
                    id,
                    &icon,
                    expire_ms,
                    urgency,
                    &categories,
                    &hint,
                    debug,
                ),
            ),
            match expire_ms {
                Option::Some(t) => t >= 1,
                Option::None => true,
            },
            match hint {
                Option::Some(h) => h.wf(),
                Option::None => true,
            },
        decreases n - i,
    {
        let ghost tcur = toksv.skip(i as int);
        let ghost acc0 = acc_view(
            &title,
            &body,
            &app_name,
            id,
            &icon,
            expire_ms,
            urgency,
            &categories,
            &hint,
            debug,
        );
        proof {
            assert(toksv.len() == tokens@.len());
            assert(toksv[i as int] == tokens@[i as int].deep_view());
            assert(tcur.len() == toksv.len() - i);
            assert(tcur[0] == toksv[i as int]);
            if i + 1 < n {
                assert(toksv[i as int + 1] == tokens@[i as int + 1].deep_view());
                assert(tcur[1] == toksv[i as int + 1]);
            }
            assert(tcur.skip(1) =~= toksv.skip(i as int + 1));
            if i + 2 <= n {
                assert(tcur.skip(2) =~= toksv.skip(i as int + 2));
            }
        }
        let ts = tokens[i].as_str();
        if str_eq(ts, "-a") || str_eq(ts, "--app-name") {
            if i + 1 >= n {
                return Err(ArgError::MissingFlagValue);
            }
            if app_name.is_some() {
                return Err(ArgError::RepeatedFlag);
            }
            app_name = Some(tokens[i + 1].clone());
            i = i + 2;
        } else if str_eq(ts, "-i") || str_eq(ts, "--icon") {
            if i + 1 >= n {
                return Err(ArgError::MissingFlagValue);
            }
            if icon.is_some() {
                return Err(ArgError::RepeatedFlag);
            }
            icon = Some(tokens[i + 1].clone());
            i = i + 2;
        } else if str_eq(ts, "-t") || str_eq(ts, "--expire-time") {
            if i + 1 >= n {
                return Err(ArgError::MissingFlagValue);
            }
            if expire_ms.is_some() {
                return Err(ArgError::RepeatedFlag);
            }
            match parse_positive_i32(tokens[i + 1].as_str()) {
                Option::None => {
                    return Err(ArgError::InvalidExpireTime);
                },
                Option::Some(t) => {
                    expire_ms = Some(t);
                },
            }
            i = i + 2;
        } else if str_eq(ts, "-c") || str_eq(ts, "--categories") {
            if i + 1 >= n {
                return Err(ArgError::MissingFlagValue);
            }
            let ghost cats0 = categories.deep_view();
            categories.push(tokens[i + 1].clone());
            proof {
                assert(categories.deep_view() =~= cats0.push(tcur[1]));
            }
            i = i + 2;
        } else if str_eq(ts, "--hint") {
            if i + 1 >= n {
                return Err(ArgError::MissingFlagValue);
            }
            if hint.is_some() {
                return Err(ArgError::RepeatedFlag);
            }
            match parse_hint(tokens[i + 1].as_str()) {
                Result::Err(e) => {
                    return Err(ArgError::InvalidHint(e));
                },
                Result::Ok(h) => {
                    hint = Some(h);
                },
            }
            i = i + 2;
        } else if str_eq(ts, "-u") || str_eq(ts, "--urgency") {
            if i + 1 >= n {
                return Err(ArgError::MissingFlagValue);
            }
            if urgency.is_some() {
                return Err(ArgError::RepeatedFlag);
            }
            match parse_urgency(tokens[i + 1].as_str()) {
                Option::None => {
                    return Err(ArgError::InvalidUrgency);
                },
                Option::Some(u) => {
                    urgency = Some(u);
                },
            }
            i = i + 2;
        } else if str_eq(ts, "-d") || str_eq(ts, "--debug") {
            if debug {
                return Err(ArgError::RepeatedFlag);
            }
            debug = true;
            i = i + 1;
        } else if ts.unicode_len() > 0 && ts.get_char(0) == '-' {
            return Err(ArgError::UnknownFlag);
        } else if title.is_none() {
            title = Some(tokens[i].clone());
            i = i + 1;
        } else if body.is_none() {
            body = Some(tokens[i].clone());
            i = i + 1;
        } else if id.is_none() {
            match parse_u32(tokens[i].as_str()) {
                Option::None => {
                    return Err(ArgError::InvalidId);
                },
                Option::Some(v) => {
                    id = Some(v);
                },
            }
            i = i + 1;
        } else {
            return Err(ArgError::UnexpectedArgument);
        }
    }
    proof {
        assert(toksv.skip(i as int).len() == 0);
    }
    match title {
        Option::None => Err(ArgError::MissingTitle),
        Option::Some(t) => {
            if t.as_str().is_empty() {
                return Err(ArgError::EmptyTitle);
            }
            let req = NotificationRequest {
                title: t,
                body,
                app_name,
                extra: PlatformExtension {
                    id,
                    icon,
                    expire_ms,
                    urgency,
                    categories,
                    hint,
                    debug,
                },
            };
            Ok(req)
        },
    }
}

/// Parses the whole argument vector (without the program name) into a
/// command, or reports why it is rejected.
pub fn parse_command(tokens: &Vec<String>, daemon_diagnostics: bool) -> (r: Result<
    Command,
    ArgError,
>)
    ensures
        match r {
            Ok(c) => spec_parse_command(tokens.deep_view(), daemon_diagnostics)
                == Ok::<CommandModel, ArgError>(c@) && (c matches Command::Send(req) ==> req.wf()),
            Err(e) => spec_parse_command(tokens.deep_view(), daemon_diagnostics)
                == Err::<CommandModel, ArgError>(e),
        },
{
    let ghost toksv = tokens.deep_view();
    if tokens.len() == 0 {
        return Err(ArgError::MissingSubcommand);
    }
    proof {
        assert(toksv.len() == tokens@.len());
        assert(toksv[0] == tokens@[0].deep_view());
    }
    let head = tokens[0].as_str();
    if str_eq(head, "send") {
        match parse_send(tokens, 1) {
            Result::Ok(req) => Ok(Command::Send(req)),
            Result::Err(e) => Err(e),
        }
    } else if str_eq(head, "server") {
        if !daemon_diagnostics {
            Err(ArgError::UnsupportedSubcommand)
        } else if tokens.len() != 1 {
            Err(ArgError::UnexpectedArgument)
        } else {
            Ok(Command::Server)
        }
    } else if str_eq(head, "info") {
        if !daemon_diagnostics {
            Err(ArgError::UnsupportedSubcommand)
        } else if tokens.len() != 1 {
            Err(ArgError::UnexpectedArgument)
        } else {
            Ok(Command::Info)
        }
    } else {
        Err(ArgError::UnknownSubcommand)
    }
}

} // verus!
