//! What a module may ask of the host, and what the host may ask of a module.
use crate::activity_identifier::ActivityIdentifier;
use vstd::prelude::*;

verus! {

/// Why a capability of a module did not succeed.
#[derive(Debug)]
pub enum ModuleError {
    /// The module does not provide this optional capability.
    NotImplemented,
    /// The configuration could not be parsed; the previous one is kept.
    ConfigParse(String),
    /// The host's end of the command channel is gone.
    ChannelClosed,
    /// The module could not be built.
    Construction(String),
}

impl PartialEq for ModuleError {
    fn eq(&self, other: &ModuleError) -> (r: bool) {
        match (self, other) {
            (ModuleError::NotImplemented, ModuleError::NotImplemented) => true,
            (ModuleError::ConfigParse(a), ModuleError::ConfigParse(b)) => a.eq(b),
            (ModuleError::ChannelClosed, ModuleError::ChannelClosed) => true,
            (ModuleError::Construction(a), ModuleError::Construction(b)) => a.eq(b),
            _ => false,
        }
    }
}

impl vstd::std_specs::cmp::PartialEqSpecImpl for ModuleError {
    open spec fn obeys_eq_spec() -> bool {
        true
    }

    open spec fn eq_spec(&self, other: &ModuleError) -> bool {
        match (self, other) {
            (ModuleError::NotImplemented, ModuleError::NotImplemented) => true,
            (ModuleError::ConfigParse(a), ModuleError::ConfigParse(b)) => a@ == b@,
            (ModuleError::ChannelClosed, ModuleError::ChannelClosed) => true,
            (ModuleError::Construction(a), ModuleError::Construction(b)) => a@ == b@,
            _ => false,
        }
    }
}

impl Eq for ModuleError {

}

/// A command from a module to the host. `W` is the host toolkit's widget
/// handle.
pub enum UIServerCommand<W> {
    /// Registers an activity and the widget that shows it.
    AddActivity { activity_id: ActivityIdentifier, widget: W },
    /// Unregisters an activity. The module drops every other reference to
    /// its widget before sending this.
    RemoveActivity { activity_id: ActivityIdentifier },
    /// Asks the host to restart the producers of the named module, for a
    /// sender that holds no reference to that module.
    RestartProducers { module_name: String },
    /// Asks the host to show a notification for an activity; no duration
    /// means the host's default.
    RequestNotification { activity_id: ActivityIdentifier, mode: u8, duration: Option<u64> },
}

/// The outcome of an optional capability that a module does not provide.
pub fn not_implemented<T>() -> (r: Result<T, ModuleError>)
    ensures
        r matches Err(ModuleError::NotImplemented),
{
    Err(ModuleError::NotImplemented)
}

/// Applies a freshly parsed configuration: a parsed value replaces the
/// current one; on a parse failure the current one is kept and the failure
/// is reported.
pub fn apply_config<C>(current: &mut C, parsed: Result<C, String>) -> (r: Result<(), ModuleError>)
    ensures
        match parsed {
            Ok(c) => *final(current) == c && r is Ok,
            Err(msg) => *final(current) == *old(current) && (r matches Err(ModuleError::ConfigParse(m)) && m == msg),
        },
{
    match parsed {
        Ok(c) => {
            *current = c;
            Ok(())
        },
        Err(msg) => Err(ModuleError::ConfigParse(msg)),
    }
}

/// The capabilities that every extension module offers the host.
///
/// The host calls `init` once, after the module's configuration has been
/// loaded; `update_config` at any time, before or after `init`; and
/// `restart_producers` whenever it is asked to, directly or through
/// [`UIServerCommand::RestartProducers`].
pub trait SabiModule {
    /// Registers the activities and producers that appear at start-up.
    fn init(&self);

    /// Replaces the configuration from its serialised form. On a parse
    /// failure the previous configuration stays in force and the failure is
    /// reported ([`apply_config`] does exactly this).
    fn update_config(&mut self, config: String) -> Result<(), ModuleError>;

    /// Stops every running producer, resets their execution context and
    /// starts each registered producer again, once.
    fn restart_producers(&self);

    /// The default configuration in serialised form. A module that does not
    /// provide one reports `NotImplemented`.
    fn default_config(&self) -> (r: Result<String, ModuleError>)
        default_ensures
            r matches Err(ModuleError::NotImplemented),
    {
        not_implemented()
    }

    /// Runs a textual administrative command and returns its answer. A
    /// module that does not provide this reports `NotImplemented`, whatever
    /// the command.
    fn cli_command(&self, command: String) -> (r: Result<String, ModuleError>)
        default_ensures
            r matches Err(ModuleError::NotImplemented),
    {
        not_implemented()
    }
}

} // verus!
