//! What every browser backend offers.
use crate::json;
use crate::text;
use vstd::prelude::*;
use vstd::string::*;

verus! {

/// Backend-native accessibility snapshot in the stable output shape.
#[derive(Debug, PartialEq)]
pub struct BackendSnapshot {
    pub snapshot: String,
    pub origin: String,
    pub refs: serde_json::Map<String, serde_json::Value>,
}

/// What a snapshot says.
#[verifier::ext_equal]
pub struct SnapshotModel {
    pub snapshot: Seq<char>,
    pub origin: Seq<char>,
    pub refs: Map<Seq<char>, json::Json>,
}

impl View for BackendSnapshot {
    type V = SnapshotModel;

    open spec fn view(&self) -> SnapshotModel {
        SnapshotModel {
            snapshot: self.snapshot@,
            origin: self.origin@,
            refs: json::members(self.refs),
        }
    }
}

impl Clone for BackendSnapshot {
    fn clone(&self) -> (copy: Self)
        ensures
            copy@ == self@,
    {
        BackendSnapshot {
            snapshot: self.snapshot.clone(),
            origin: self.origin.clone(),
            refs: json::copy_object(&self.refs),
        }
    }
}

/// The features that every backend supports.
pub open spec fn is_common_feature(feature: Seq<char>) -> bool {
    ||| feature == "navigate"@
    ||| feature == "evaluate"@
    ||| feature == "screenshot"@
    ||| feature == "click"@
    ||| feature == "fill"@
}

/// The features that need the Chrome DevTools Protocol.
pub open spec fn is_cdp_feature(feature: Seq<char>) -> bool {
    ||| feature == "screencast"@
    ||| feature == "tracing"@
    ||| feature == "network_intercept"@
    ||| feature == "cdp"@
}

/// Whether a backend of that type supports the feature.
pub open spec fn feature_supported(kind: Seq<char>, feature: Seq<char>) -> bool {
    is_common_feature(feature) || (is_cdp_feature(feature) && kind == "cdp"@)
}

/// Whether a backend of the type `kind` supports the feature.
pub fn type_supports(kind: &str, feature: &str) -> (supported: bool)
    ensures
        supported == feature_supported(kind@, feature@),
{
    if text::same_text(feature, "navigate") || text::same_text(feature, "evaluate")
        || text::same_text(feature, "screenshot") || text::same_text(feature, "click")
        || text::same_text(feature, "fill") {
        true
    } else if text::same_text(feature, "screencast") || text::same_text(feature, "tracing")
        || text::same_text(feature, "network_intercept") || text::same_text(feature, "cdp") {
        text::same_text(kind, "cdp")
    } else {
        false
    }
}

/// The complaint about an action that a backend does not support.
pub open spec fn unsupported_text(action: Seq<char>, kind: Seq<char>) -> Seq<char> {
    "Action '"@ + action + "' is not supported on the "@ + kind + " backend"@
}

/// Words the complaint about an action that a backend of the type `kind` does
/// not support.
pub fn unsupported(kind: &str, action: &str) -> (complaint: String)
    ensures
        complaint@ == unsupported_text(action@, kind@),
{
    let mut complaint = text::joined("Action '", action);
    complaint.append("' is not supported on the ");
    complaint.append(kind);
    complaint.append(" backend");
    complaint
}

/// An operation was refused as unsupported.
pub open spec fn refused<T>(outcome: Result<T, String>, action: Seq<char>, kind: Seq<char>) -> bool {
    outcome matches Err(complaint) && complaint@ == unsupported_text(action, kind)
}

/// Abstract backend for browser automation.
///
/// An operation answers with the first call that its performer has to make, or
/// with the complaint that it fails with at once.
pub trait BrowserBackend: Send + Sync {
    /// A call that the performer makes on behalf of the backend.
    type Call;

    /// The backend's type, as text.
    spec fn kind(&self) -> Seq<char>;

    fn navigate(&self, url: &str) -> Self::Call;

    fn get_url(&self) -> Self::Call;

    fn get_title(&self) -> Self::Call;

    fn get_content(&self) -> Self::Call;

    fn evaluate(&self, script: &str) -> Self::Call;

    fn screenshot(&self) -> Self::Call;

    fn click(&self, selector: &str) -> Self::Call;

    fn fill(&self, selector: &str, value: &str) -> Self::Call;

    fn type_text(
        &self,
        _selector: &str,
        _text: &str,
        _clear: bool,
        _delay_ms: Option<u64>,
    ) -> (outcome: Result<Self::Call, String>)
        default_ensures
            refused(outcome, "type"@, self.kind()),
    {
        Err(self.unsupported_error("type"))
    }

    fn press(&self, _key: &str) -> (outcome: Result<Self::Call, String>)
        default_ensures
            refused(outcome, "press"@, self.kind()),
    {
        Err(self.unsupported_error("press"))
    }

    fn scroll(&self) -> (outcome: Result<Self::Call, String>)
        default_ensures
            refused(outcome, "scroll"@, self.kind()),
    {
        Err(self.unsupported_error("scroll"))
    }

    /// The call that ends the session, where there is a session to end.
    fn close(&self) -> Option<Self::Call>;

    fn back(&self) -> Self::Call;

    fn forward(&self) -> Self::Call;

    fn reload(&self) -> Self::Call;

    fn get_cookies(&self) -> Result<Self::Call, String>;

    fn backend_type(&self) -> (kind: &str)
        ensures
            kind@ == self.kind(),
    ;

    fn snapshot(&self) -> (outcome: Result<Self::Call, String>)
        default_ensures
            refused(outcome, "snapshot"@, self.kind()),
    {
        Err(self.unsupported_error("snapshot"))
    }

    /// Whether the backend is alive, by what asking it for its address gave.
    fn is_alive(&self, url: &Result<String, String>) -> (alive: bool)
        ensures
            alive == (url is Ok),
    {
        match url {
            Ok(_) => true,
            Err(_) => false,
        }
    }

    fn supports(&self, feature: &str) -> (supported: bool)
        ensures
            supported == feature_supported(self.kind(), feature@),
    {
        type_supports(self.backend_type(), feature)
    }

    fn unsupported_error(&self, action: &str) -> (complaint: String)
        ensures
            complaint@ == unsupported_text(action@, self.kind()),
    {
        unsupported(self.backend_type(), action)
    }
}

/// A backend of any other type than `cdp` supports the common features and no
/// others; `webdriver` and `camofox` are such types.
pub proof fn other_backends_support_common_features_only(kind: Seq<char>, feature: Seq<char>)
    ensures
        kind != "cdp"@ ==> feature_supported(kind, feature) == is_common_feature(feature),
        feature_supported("webdriver"@, feature) == is_common_feature(feature),
        feature_supported("camofox"@, feature) == is_common_feature(feature),
{
    reveal_strlit("cdp");
    reveal_strlit("webdriver");
    reveal_strlit("camofox");
    assert("cdp"@.len() == 3 && "webdriver"@.len() == 9 && "camofox"@.len() == 7);
}

} // verus!
