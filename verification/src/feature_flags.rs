//! Feature flags: named switches that are on for the users they were given
//! to, and, unless a flag says otherwise, for every member of staff.

use vstd::prelude::*;

verus! {

/// To create a feature flag, implement this trait on a trivial type and use
/// the type as the parameter of [`FeatureFlags::has_flag`].
///
/// Feature flags are enabled for members of staff by default: a flag that is
/// not says so in `staff_enabled` and answers accordingly.
pub trait FeatureFlag {
    const NAME: &'static str;

    /// Whether being a member of staff is enough to have this flag.
    open spec fn staff_enabled() -> bool {
        true
    }

    /// Returns whether this feature flag is enabled for staff.
    fn enabled_for_staff() -> (enabled: bool)
        ensures
            enabled == Self::staff_enabled(),
    ;
}

pub struct Assistant2FeatureFlag;

impl FeatureFlag for Assistant2FeatureFlag {
    const NAME: &'static str = "assistant2";

    fn enabled_for_staff() -> (enabled: bool) {
        true
    }
}

pub struct PredictEditsFeatureFlag;

impl FeatureFlag for PredictEditsFeatureFlag {
    const NAME: &'static str = "predict-edits";

    fn enabled_for_staff() -> (enabled: bool) {
        true
    }
}

pub struct PredictEditsRateCompletionsFeatureFlag;

impl FeatureFlag for PredictEditsRateCompletionsFeatureFlag {
    const NAME: &'static str = "predict-edits-rate-completions";

    fn enabled_for_staff() -> (enabled: bool) {
        true
    }
}

pub struct GitUiFeatureFlag;

impl FeatureFlag for GitUiFeatureFlag {
    const NAME: &'static str = "git-ui";

    fn enabled_for_staff() -> (enabled: bool) {
        true
    }
}

pub struct Remoting {}

impl FeatureFlag for Remoting {
    const NAME: &'static str = "remoting";

    fn enabled_for_staff() -> (enabled: bool) {
        true
    }
}

pub struct LanguageModels {}

impl FeatureFlag for LanguageModels {
    const NAME: &'static str = "language-models";

    fn enabled_for_staff() -> (enabled: bool) {
        true
    }
}

pub struct LlmClosedBeta {}

impl FeatureFlag for LlmClosedBeta {
    const NAME: &'static str = "llm-closed-beta";

    fn enabled_for_staff() -> (enabled: bool) {
        true
    }
}

pub struct ZedPro {}

impl FeatureFlag for ZedPro {
    const NAME: &'static str = "zed-pro";

    fn enabled_for_staff() -> (enabled: bool) {
        true
    }
}

pub struct NotebookFeatureFlag;

impl FeatureFlag for NotebookFeatureFlag {
    const NAME: &'static str = "notebooks";

    fn enabled_for_staff() -> (enabled: bool) {
        true
    }
}

pub struct AutoCommand {}

impl FeatureFlag for AutoCommand {
    const NAME: &'static str = "auto-command";

    open spec fn staff_enabled() -> bool {
        false
    }

    fn enabled_for_staff() -> (enabled: bool) {
        false
    }
}

/// The flags of one user.
#[derive(Debug)]
pub struct FeatureFlags {
    pub flags: Vec<String>,
    pub staff: bool,
}

impl Default for FeatureFlags {
    fn default() -> (flags: Self)
        ensures
            flags.flags@.len() == 0,
            !flags.staff,
    {
        FeatureFlags { flags: Vec::new(), staff: false }
    }
}

impl FeatureFlags {
    /// Replaces what is known of the user.
    pub fn update_flags(&mut self, staff: bool, flags: Vec<String>)
        ensures
            final(self).staff == staff,
            final(self).flags == flags,
    {
        self.staff = staff;
        self.flags = flags;
    }

    /// Notes whether the user is a member of staff.
    pub fn set_staff(&mut self, staff: bool)
        ensures
            final(self).staff == staff,
            final(self).flags == old(self).flags,
    {
        self.staff = staff;
    }

    /// Whether the user is a member of staff.
    pub fn is_staff(&self) -> (staff: bool)
        ensures
            staff == self.staff,
    {
        self.staff
    }

    /// Whether a flag of the name `name` has been given to the user.
    pub open spec fn lists(&self, name: Seq<char>) -> bool {
        exists|i: int| 0 <= i < self.flags@.len() && (#[trigger] self.flags@[i])@ == name
    }

    /// Whether the user has the flag `T`: as a member of staff, where that is
    /// enough for `T`, or because the flag was given to the user by name.
    pub fn has_flag<T: FeatureFlag>(&self) -> (has: bool)
        ensures
            has == ((self.staff && T::staff_enabled()) || self.lists(T::NAME@)),
    {
        if self.staff && T::enabled_for_staff() {
            return true;
        }
        let name = T::NAME.to_owned();
        let mut i: usize = 0;
        while i < self.flags.len()
            invariant
                i <= self.flags.len(),
                name@ == T::NAME@,
                forall|k: int| 0 <= k < i ==> (#[trigger] self.flags@[k])@ != T::NAME@,
            decreases self.flags.len() - i,
        {
            if self.flags[i] == name {
                return true;
            }
            i += 1;
        }
        false
    }
}

} // verus!
