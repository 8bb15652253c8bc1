//! The validated notification request and its platform extension block.

use vstd::prelude::*;

use crate::hint::{Hint, HintModel};
use crate::urgency::UrgencyShim;

verus! {

/// Fields only meaningful where the target platform offers a richer
/// notification protocol.
#[derive(Debug, PartialEq, Eq)]
pub struct PlatformExtension {
    /// Replaces a previously shown notification with the same id.
    pub id: Option<u32>,
    /// Filesystem path or symbolic icon name.
    pub icon: Option<String>,
    /// Time until expiration, in milliseconds; always positive.
    pub expire_ms: Option<i32>,
    pub urgency: Option<UrgencyShim>,
    /// Category labels, each passed to the transport as a category hint.
    pub categories: Vec<String>,
    /// A free-form typed key/value hint.
    pub hint: Option<Hint>,
    /// Also print the composed notification to standard output.
    pub debug: bool,
}

/// The mathematical model of a [`PlatformExtension`].
pub ghost struct ExtensionModel {
    pub id: Option<u32>,
    pub icon: Option<Seq<char>>,
    pub expire_ms: Option<i32>,
    pub urgency: Option<UrgencyShim>,
    pub categories: Seq<Seq<char>>,
    pub hint: Option<HintModel>,
    pub debug: bool,
}

/// The model of an optional hint.
pub open spec fn opt_hint_view(h: &Option<Hint>) -> Option<HintModel> {
    match h {
        Option::Some(hint) => Some(hint@),
        Option::None => None,
    }
}

impl View for PlatformExtension {
    type V = ExtensionModel;

    open spec fn view(&self) -> ExtensionModel {
        ExtensionModel {
            id: self.id,
            icon: self.icon.deep_view(),
            expire_ms: self.expire_ms,
            urgency: self.urgency,
            categories: self.categories.deep_view(),
            hint: opt_hint_view(&self.hint),
            debug: self.debug,
        }
    }
}

impl ExtensionModel {
    /// The expiration, when present, is positive, and the hint, when
    /// present, hides no separator in its fields.
    pub open spec fn wf(self) -> bool {
        &&& match self.expire_ms {
            Option::Some(t) => t >= 1,
            Option::None => true,
        }
        &&& match self.hint {
            Option::Some(h) => !h.name.contains(':') && !h.value.contains(':'),
            Option::None => true,
        }
    }
}

/// A validated request for one notification.
#[derive(Debug, PartialEq, Eq)]
pub struct NotificationRequest {
    /// Never empty.
    pub title: String,
    pub body: Option<String>,
    /// Falls back to the tool-defined default when absent.
    pub app_name: Option<String>,
    pub extra: PlatformExtension,
}

/// The mathematical model of a [`NotificationRequest`].
pub ghost struct RequestModel {
    pub title: Seq<char>,
    pub body: Option<Seq<char>>,
    pub app_name: Option<Seq<char>>,
    pub extra: ExtensionModel,
}

impl View for NotificationRequest {
    type V = RequestModel;

    open spec fn view(&self) -> RequestModel {
        RequestModel {
            title: self.title@,
            body: self.body.deep_view(),
            app_name: self.app_name.deep_view(),
            extra: self.extra@,
        }
    }
}

impl RequestModel {
    /// A validated request: the title is never empty and the extension
    /// block is well formed.
    pub open spec fn wf(self) -> bool {
        self.title.len() > 0 && self.extra.wf()
    }
}

impl NotificationRequest {
    pub open spec fn wf(&self) -> bool {
        self@.wf()
    }
}

} // verus!
