//! What the watchdog is told at start-up and never changes afterwards.

use vstd::prelude::*;
use crate::clock::Span;

verus! {

/// The threshold in seconds where none is given: one day.
pub const DEFAULT_THRESHOLD_SECS: u64 = 86_400;

/// The grace period in seconds where none is given: five minutes.
pub const DEFAULT_GRACE_SECS: u64 = 300;

/// Why a set of options is no configuration.
#[derive(Clone, Copy, Debug, PartialEq, Eq, Structural)]
pub enum ConfigError {
    /// The threshold is zero, so that every tick would be a jump.
    ZeroThreshold,
    /// A remedy command is given, and it is the empty string.
    EmptyCommand,
}

impl ConfigError {
    /// What is wrong, in words.
    pub fn describe(&self) -> (text: &'static str)
        ensures
            *self == ConfigError::ZeroThreshold ==> text@ == "the threshold must be more than zero"@,
            *self == ConfigError::EmptyCommand ==> text@ == "the command must not be empty"@,
    {
        match self {
            ConfigError::ZeroThreshold => "the threshold must be more than zero",
            ConfigError::EmptyCommand => "the command must not be empty",
        }
    }
}

/// The options of the watchdog: the longest step the clock may take in one
/// tick, the command to run when it takes a longer one, how long to give
/// that command, and whether to reboot when the jump persists.
#[derive(Debug)]
pub struct Configuration {
    threshold: Span,
    command: Option<String>,
    grace_period: Span,
    reboot: bool,
}

/// Whether the options are acceptable: a positive threshold, and a command
/// that, if there is one, is not empty.
pub open spec fn acceptable(threshold: Span, command: Option<String>) -> bool {
    &&& threshold@ > 0
    &&& command matches Some(text) ==> text@.len() > 0
}

impl Clone for Configuration {
    fn clone(&self) -> (copy: Configuration)
        ensures
            copy == *self,
    {
        proof {
            use_type_invariant(self);
        }
        let command = match &self.command {
            Some(text) => Some(text.clone()),
            None => None,
        };
        Configuration {
            threshold: self.threshold,
            command,
            grace_period: self.grace_period,
            reboot: self.reboot,
        }
    }
}

impl Configuration {
    /// The threshold is positive and the command, if any, is not empty.
    #[verifier::type_invariant]
    pub closed spec fn wf(self) -> bool {
        acceptable(self.threshold, self.command)
    }

    /// The longest step of the clock that is not a jump.
    pub closed spec fn spec_threshold(&self) -> Span {
        self.threshold
    }

    /// The remedy command, if one is configured.
    pub closed spec fn spec_command(&self) -> Option<String> {
        self.command
    }

    /// The time the remedy command is given before the clock is read again.
    pub closed spec fn spec_grace_period(&self) -> Span {
        self.grace_period
    }

    /// Whether a jump that persists leads to a reboot.
    pub closed spec fn spec_reboot(&self) -> bool {
        self.reboot
    }

    /// Whether a remedy command is configured.
    pub open spec fn has_command(&self) -> bool {
        self.spec_command() is Some
    }

    /// Builds a configuration, or says which option is not acceptable. A
    /// zero threshold is reported before an empty command.
    pub fn new(
        threshold: Span,
        command: Option<String>,
        grace_period: Span,
        reboot: bool,
    ) -> (made: Result<Configuration, ConfigError>)
        ensures
            made is Ok <==> acceptable(threshold, command),
            made matches Ok(config) ==> {
                &&& config.wf()
                &&& config.spec_threshold() == threshold
                &&& config.spec_command() == command
                &&& config.spec_grace_period() == grace_period
                &&& config.spec_reboot() == reboot
            },
            made matches Err(error) ==> (error == ConfigError::ZeroThreshold <==> threshold@ == 0),
    {
        proof {
            threshold.lemma_nonnegative();
        }
        if !threshold.exceeds(&Span::from_secs(0)) {
            return Err(ConfigError::ZeroThreshold);
        }
        let empty = match &command {
            Some(text) => text.as_str().is_empty(),
            None => false,
        };
        if empty {
            return Err(ConfigError::EmptyCommand);
        }
        Ok(Configuration { threshold, command, grace_period, reboot })
    }

    /// The longest step of the clock that is not a jump.
    pub fn threshold(&self) -> (threshold: Span)
        ensures
            threshold == self.spec_threshold(),
            threshold@ > 0,
    {
        proof {
            use_type_invariant(self);
        }
        self.threshold
    }

    /// The remedy command, if one is configured.
    pub fn command(&self) -> (command: Option<&String>)
        ensures
            command is Some == self.has_command(),
            command matches Some(text) ==> *text == self.spec_command()->0 && text@.len() > 0,
    {
        proof {
            use_type_invariant(self);
        }
        self.command.as_ref()
    }

    /// The time the remedy command is given before the clock is read again.
    pub fn grace_period(&self) -> (grace: Span)
        ensures
            grace == self.spec_grace_period(),
    {
        self.grace_period
    }

    /// Whether a jump that persists leads to a reboot.
    pub fn reboot(&self) -> (reboot: bool)
        ensures
            reboot == self.spec_reboot(),
    {
        self.reboot
    }
}

} // verus!
