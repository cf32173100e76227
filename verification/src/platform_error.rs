//! Typed platform failures.
//!
//! Each class stays distinguishable so callers can act on it: an unsupported
//! protocol is not a denied permission, and neither may be reported as
//! success.
use vstd::prelude::*;

verus! {

/// A platform operation that did not succeed.
#[derive(Clone, Debug, PartialEq, Eq)]
pub enum PlatformError {
    /// The backend has no way to do this: a missing protocol, an absent API.
    Unsupported { operation: String, reason: String },
    /// The user or the system refused. Retrying without user action fails
    /// the same way.
    PermissionDenied { operation: String, reason: String },
    /// A requested global binding is already taken.
    ShortcutConflict { binding: String, holder: String },
    /// The compositor, display server or portal connection went away.
    Disconnected { reason: String },
    /// A native surface was lost and must be recreated.
    SurfaceLost { reason: String },
    /// Data failed validation: a document, a settings value, a protocol
    /// reply.
    InvalidData { what: String, reason: String },
}

impl PlatformError {
    /// The stable machine-readable class.
    pub open spec fn class_name(&self) -> Seq<char> {
        match self {
            PlatformError::Unsupported { .. } => "unsupported"@,
            PlatformError::PermissionDenied { .. } => "permission_denied"@,
            PlatformError::ShortcutConflict { .. } => "shortcut_conflict"@,
            PlatformError::Disconnected { .. } => "disconnected"@,
            PlatformError::SurfaceLost { .. } => "surface_lost"@,
            PlatformError::InvalidData { .. } => "invalid_data"@,
        }
    }

    /// The sentence a user is shown.
    pub open spec fn sentence(&self) -> Seq<char> {
        match self {
            PlatformError::Unsupported { operation, reason } =>
                operation@ + " is not supported here: "@ + reason@,
            PlatformError::PermissionDenied { operation, reason } =>
                operation@ + " was denied: "@ + reason@,
            PlatformError::ShortcutConflict { binding, holder } =>
                "the binding "@ + binding@ + " is already held by "@ + holder@,
            PlatformError::Disconnected { reason } => "the connection was lost: "@ + reason@,
            PlatformError::SurfaceLost { reason } => "the native surface was lost: "@ + reason@,
            PlatformError::InvalidData { what, reason } => what@ + " is not valid: "@ + reason@,
        }
    }

    /// A stable machine-readable class, for diagnostics and tests.
    pub fn class(&self) -> (class: &'static str)
        ensures
            class@ == self.class_name(),
    {
        match self {
            PlatformError::Unsupported { .. } => "unsupported",
            PlatformError::PermissionDenied { .. } => "permission_denied",
            PlatformError::ShortcutConflict { .. } => "shortcut_conflict",
            PlatformError::Disconnected { .. } => "disconnected",
            PlatformError::SurfaceLost { .. } => "surface_lost",
            PlatformError::InvalidData { .. } => "invalid_data",
        }
    }

    /// Whether the same call could succeed later without the user doing
    /// anything: only a lost connection or surface.
    pub fn is_transient(&self) -> (transient: bool)
        ensures
            transient == (self is Disconnected || self is SurfaceLost),
    {
        match self {
            PlatformError::Disconnected { .. } | PlatformError::SurfaceLost { .. } => true,
            _ => false,
        }
    }

    /// Whether the user can unblock this themselves: only a refusal.
    pub fn needs_user_action(&self) -> (needs: bool)
        ensures
            needs == (self is PermissionDenied || self is ShortcutConflict),
    {
        match self {
            PlatformError::PermissionDenied { .. } | PlatformError::ShortcutConflict { .. } => true,
            _ => false,
        }
    }

    pub fn unsupported(operation: &str, reason: &str) -> (error: Self)
        ensures
            error matches PlatformError::Unsupported { operation: o, reason: r }
                && o@ == operation@ && r@ == reason@,
    {
        PlatformError::Unsupported {
            operation: String::from_str(operation),
            reason: String::from_str(reason),
        }
    }

    pub fn disconnected(reason: &str) -> (error: Self)
        ensures
            error matches PlatformError::Disconnected { reason: r } && r@ == reason@,
    {
        PlatformError::Disconnected { reason: String::from_str(reason) }
    }

    pub fn invalid_data(what: &str, reason: &str) -> (error: Self)
        ensures
            error matches PlatformError::InvalidData { what: w, reason: r }
                && w@ == what@ && r@ == reason@,
    {
        PlatformError::InvalidData { what: String::from_str(what), reason: String::from_str(reason) }
    }

    /// The sentence a user is shown.
    pub fn message(&self) -> (message: String)
        ensures
            message@ == self.sentence(),
    {
        let mut out = String::new();
        match self {
            PlatformError::Unsupported { operation, reason } => {
                out.append(operation.as_str());
                out.append(" is not supported here: ");
                out.append(reason.as_str());
            },
            PlatformError::PermissionDenied { operation, reason } => {
                out.append(operation.as_str());
                out.append(" was denied: ");
                out.append(reason.as_str());
            },
            PlatformError::ShortcutConflict { binding, holder } => {
                out.append("the binding ");
                out.append(binding.as_str());
                out.append(" is already held by ");
                out.append(holder.as_str());
            },
            PlatformError::Disconnected { reason } => {
                out.append("the connection was lost: ");
                out.append(reason.as_str());
            },
            PlatformError::SurfaceLost { reason } => {
                out.append("the native surface was lost: ");
                out.append(reason.as_str());
            },
            PlatformError::InvalidData { what, reason } => {
                out.append(what.as_str());
                out.append(" is not valid: ");
                out.append(reason.as_str());
            },
        }
        out
    }
}

/// The six classes are distinct: no two kinds of failure share a class.
pub proof fn law_error_classes_are_distinct(a: PlatformError, b: PlatformError)
    requires
        a.class_name() == b.class_name(),
    ensures
        (a is Unsupported) == (b is Unsupported),
        (a is PermissionDenied) == (b is PermissionDenied),
        (a is ShortcutConflict) == (b is ShortcutConflict),
        (a is Disconnected) == (b is Disconnected),
        (a is SurfaceLost) == (b is SurfaceLost),
        (a is InvalidData) == (b is InvalidData),
{
    reveal_strlit("unsupported");
    reveal_strlit("permission_denied");
    reveal_strlit("shortcut_conflict");
    reveal_strlit("disconnected");
    reveal_strlit("surface_lost");
    reveal_strlit("invalid_data");
    assert("permission_denied"@[0] != "shortcut_conflict"@[0]);
    assert("disconnected"@[0] != "surface_lost"@[0]);
    assert("disconnected"@[0] != "invalid_data"@[0]);
    assert("surface_lost"@[0] != "invalid_data"@[0]);
    assert("shortcut_conflict"@[0] != "permission_denied"@[0]);
    assert("surface_lost"@[0] != "disconnected"@[0]);
    assert("invalid_data"@[0] != "disconnected"@[0]);
    assert("invalid_data"@[0] != "surface_lost"@[0]);
    match a {
        PlatformError::ShortcutConflict { .. } => {
            assert(b.class_name() == "shortcut_conflict"@);
        },
        PlatformError::SurfaceLost { .. } => {
            assert(b.class_name() == "surface_lost"@);
        },
        _ => {},
    }
}

/// Every failure renders to a sentence with something in it, whatever its
/// fields hold.
pub proof fn law_every_error_renders(error: PlatformError)
    ensures
        error.sentence().len() > 0,
{
    reveal_strlit(" is not supported here: ");
    reveal_strlit(" was denied: ");
    reveal_strlit("the binding ");
    reveal_strlit("the connection was lost: ");
    reveal_strlit("the native surface was lost: ");
    reveal_strlit(" is not valid: ");
}

} // verus!
