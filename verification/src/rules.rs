//! The ordered extension-convention table.  Order is significant: it defines
//! the tie-break priority when several candidate files exist.

use vstd::prelude::*;

verus! {

/// One entry of the ordered extension-convention table: a name suffix,
/// whether an executable of this kind may be launched from a restricted
/// context, and whether launching it demands a shell wrapper and captured
/// streams.
pub struct ExtensionRule {
    pub suffix: &'static str,
    pub supports_restricted: bool,
    pub requires_shell_wrapper: bool,
    pub requires_stream_capture: bool,
}

/// The ghost counterpart of one extension rule.
#[verifier::ext_equal]
pub ghost struct RuleModel {
    pub suffix: Seq<char>,
    pub supports_restricted: bool,
    pub requires_shell_wrapper: bool,
    pub requires_stream_capture: bool,
}

impl View for ExtensionRule {
    type V = RuleModel;

    open spec fn view(&self) -> RuleModel {
        RuleModel {
            suffix: self.suffix@,
            supports_restricted: self.supports_restricted,
            requires_shell_wrapper: self.requires_shell_wrapper,
            requires_stream_capture: self.requires_stream_capture,
        }
    }
}

/// The canonical rule table: the native-binary extension first, then each
/// scripted-wrapper extension in fixed priority order.  Only the native
/// binary may run from a restricted context; the scripted wrappers need the
/// host-shell wrapper and captured streams.
pub open spec fn spec_rules() -> Seq<RuleModel> {
    seq![
        RuleModel {
            suffix: ".exe"@,
            supports_restricted: true,
            requires_shell_wrapper: false,
            requires_stream_capture: false,
        },
        RuleModel {
            suffix: ".bat"@,
            supports_restricted: false,
            requires_shell_wrapper: true,
            requires_stream_capture: true,
        },
        RuleModel {
            suffix: ".cmd"@,
            supports_restricted: false,
            requires_shell_wrapper: true,
            requires_stream_capture: true,
        },
    ]
}

/// Builds the executable rule table; its view is exactly `spec_rules()`.
pub fn extension_rules() -> (rules: Vec<ExtensionRule>)
    ensures
        rules@.len() == spec_rules().len(),
        forall|i: int| 0 <= i < rules@.len() ==> rules@[i]@ == spec_rules()[i],
{
    let mut rules: Vec<ExtensionRule> = Vec::new();
    rules.push(
        ExtensionRule {
            suffix: ".exe",
            supports_restricted: true,
            requires_shell_wrapper: false,
            requires_stream_capture: false,
        },
    );
    rules.push(
        ExtensionRule {
            suffix: ".bat",
            supports_restricted: false,
            requires_shell_wrapper: true,
            requires_stream_capture: true,
        },
    );
    rules.push(
        ExtensionRule {
            suffix: ".cmd",
            supports_restricted: false,
            requires_shell_wrapper: true,
            requires_stream_capture: true,
        },
    );
    proof {
        assert(forall|i: int| 0 <= i < rules@.len() ==> rules@[i]@ =~= spec_rules()[i]);
    }
    rules
}

} // verus!
