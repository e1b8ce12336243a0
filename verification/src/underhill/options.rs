//! Command line and environment options.
use crate::text::{
    eq_ignore_ascii_case, number, owned, parse_number, same_ignoring_case, starts_with, str_eq,
};
use vstd::prelude::*;
use vstd::string::{StrSliceExecFns, StringExecFns};

verus! {

/// A text that does not name a value.
#[derive(Debug)]
pub struct InvalidValue {
    /// What is wrong.
    pub message: String,
}

fn invalid(what: &str, s: &str) -> (e: InvalidValue)
    ensures
        e.message@ == what@ + s@,
{
    let mut message = owned(what);
    message.append(s);
    InvalidValue { message }
}

/// A scenario to simulate.
#[derive(Debug, Clone, Copy, PartialEq, Eq, Structural)]
pub enum TestScenarioConfig {
    /// Saving fails.
    SaveFail,
    /// Restoring does not end.
    RestoreStuck,
    /// Saving does not end.
    SaveStuck,
}

impl TestScenarioConfig {
    /// The scenario that `s` names.
    pub open spec fn parsed(s: Seq<char>) -> Option<TestScenarioConfig> {
        if s == "SERVICING_SAVE_FAIL"@ {
            Some(TestScenarioConfig::SaveFail)
        } else if s == "SERVICING_RESTORE_STUCK"@ {
            Some(TestScenarioConfig::RestoreStuck)
        } else if s == "SERVICING_SAVE_STUCK"@ {
            Some(TestScenarioConfig::SaveStuck)
        } else {
            None
        }
    }

    /// The scenario that `s` names.
    pub fn from_str(s: &str) -> (r: Result<TestScenarioConfig, InvalidValue>)
        ensures
            r is Ok <==> Self::parsed(s@) is Some,
            r matches Ok(c) ==> Self::parsed(s@) == Some(c),
            r matches Err(e) ==> e.message@ == "Invalid test config: "@ + s@,
    {
        if str_eq(s, "SERVICING_SAVE_FAIL") {
            Ok(TestScenarioConfig::SaveFail)
        } else if str_eq(s, "SERVICING_RESTORE_STUCK") {
            Ok(TestScenarioConfig::RestoreStuck)
        } else if str_eq(s, "SERVICING_SAVE_STUCK") {
            Ok(TestScenarioConfig::SaveStuck)
        } else {
            Err(invalid("Invalid test config: ", s))
        }
    }
}

/// The lifetime of the guest state.
#[derive(Debug, Clone, Copy, PartialEq, Eq, Structural)]
pub enum GuestStateLifetimeCli {
    /// As usual.
    Default,
    /// Made anew if it cannot be read.
    ReprovisionOnFailure,
    /// Made anew.
    Reprovision,
    /// Not kept.
    Ephemeral,
}

impl GuestStateLifetimeCli {
    /// The lifetime that `s` names.
    pub open spec fn parsed(s: Seq<char>) -> Option<GuestStateLifetimeCli> {
        if s == "DEFAULT"@ || s == "0"@ {
            Some(GuestStateLifetimeCli::Default)
        } else if s == "REPROVISION_ON_FAILURE"@ || s == "1"@ {
            Some(GuestStateLifetimeCli::ReprovisionOnFailure)
        } else if s == "REPROVISION"@ || s == "2"@ {
            Some(GuestStateLifetimeCli::Reprovision)
        } else if s == "EPHEMERAL"@ || s == "3"@ {
            Some(GuestStateLifetimeCli::Ephemeral)
        } else {
            None
        }
    }

    /// The lifetime that `s` names.
    pub fn from_str(s: &str) -> (r: Result<GuestStateLifetimeCli, InvalidValue>)
        ensures
            r is Ok <==> Self::parsed(s@) is Some,
            r matches Ok(c) ==> Self::parsed(s@) == Some(c),
            r matches Err(e) ==> e.message@ == "Invalid lifetime: "@ + s@,
    {
        if str_eq(s, "DEFAULT") || str_eq(s, "0") {
            Ok(GuestStateLifetimeCli::Default)
        } else if str_eq(s, "REPROVISION_ON_FAILURE") || str_eq(s, "1") {
            Ok(GuestStateLifetimeCli::ReprovisionOnFailure)
        } else if str_eq(s, "REPROVISION") || str_eq(s, "2") {
            Ok(GuestStateLifetimeCli::Reprovision)
        } else if str_eq(s, "EPHEMERAL") || str_eq(s, "3") {
            Ok(GuestStateLifetimeCli::Ephemeral)
        } else {
            Err(invalid("Invalid lifetime: ", s))
        }
    }
}

/// How the guest state is encrypted.
#[derive(Debug, Clone, Copy, PartialEq, Eq, Structural)]
pub enum GuestStateEncryptionPolicyCli {
    /// As it turns out.
    Auto,
    /// Not at all.
    Unencrypted,
    /// By a GSP ID.
    GspById,
    /// By a GSP key.
    GspKey,
}

impl GuestStateEncryptionPolicyCli {
    /// The policy that `s` names.
    pub open spec fn parsed(s: Seq<char>) -> Option<GuestStateEncryptionPolicyCli> {
        if s == "AUTO"@ || s == "0"@ {
            Some(GuestStateEncryptionPolicyCli::Auto)
        } else if s == "NONE"@ || s == "1"@ {
            Some(GuestStateEncryptionPolicyCli::Unencrypted)
        } else if s == "GSP_BY_ID"@ || s == "2"@ {
            Some(GuestStateEncryptionPolicyCli::GspById)
        } else if s == "GSP_KEY"@ || s == "3"@ {
            Some(GuestStateEncryptionPolicyCli::GspKey)
        } else {
            None
        }
    }

    /// The policy that `s` names.
    pub fn from_str(s: &str) -> (r: Result<GuestStateEncryptionPolicyCli, InvalidValue>)
        ensures
            r is Ok <==> Self::parsed(s@) is Some,
            r matches Ok(c) ==> Self::parsed(s@) == Some(c),
            r matches Err(e) ==> e.message@ == "Invalid encryption policy: "@ + s@,
    {
        if str_eq(s, "AUTO") || str_eq(s, "0") {
            Ok(GuestStateEncryptionPolicyCli::Auto)
        } else if str_eq(s, "NONE") || str_eq(s, "1") {
            Ok(GuestStateEncryptionPolicyCli::Unencrypted)
        } else if str_eq(s, "GSP_BY_ID") || str_eq(s, "2") {
            Ok(GuestStateEncryptionPolicyCli::GspById)
        } else if str_eq(s, "GSP_KEY") || str_eq(s, "3") {
            Ok(GuestStateEncryptionPolicyCli::GspKey)
        } else {
            Err(invalid("Invalid encryption policy: ", s))
        }
    }
}

/// What `str::to_lowercase` makes of a text.
pub uninterp spec fn lowercase(s: Seq<char>) -> Seq<char>;

/// `str::to_lowercase`: the text in lower case, by the rules of Unicode. The
/// result depends on the text alone.
#[verifier::external_body]
fn to_lowercase(s: &str) -> (r: String)
    ensures
        r@ == lowercase(s@),
{
    s.to_lowercase()
}

/// Whether a device is kept alive over servicing.
#[derive(Debug, Clone, Copy, PartialEq, Eq, Structural)]
pub enum KeepAliveConfig {
    /// It is: the host supports it and there is a private pool.
    EnabledHostAndPrivatePoolPresent,
    /// It is not: there is a private pool, but the host does not support it.
    DisabledHostAndPrivatePoolPresent,
    /// It is not.
    Disabled,
}

impl KeepAliveConfig {
    /// The configuration that a text in lower case names.
    pub open spec fn parsed(s: Seq<char>) -> Option<KeepAliveConfig> {
        if s == "host,privatepool"@ || s == "enabled"@ {
            Some(KeepAliveConfig::EnabledHostAndPrivatePoolPresent)
        } else if s == "nohost,privatepool"@ {
            Some(KeepAliveConfig::DisabledHostAndPrivatePoolPresent)
        } else if s == "nohost,noprivatepool"@ || s == "disabled"@ || "disabled,"@.is_prefix_of(
            s,
        ) {
            Some(KeepAliveConfig::Disabled)
        } else {
            None
        }
    }

    /// The configuration that a text in lower case names.
    pub fn from_lowercase(s: &str) -> (r: Option<KeepAliveConfig>)
        ensures
            r == Self::parsed(s@),
    {
        if str_eq(s, "host,privatepool") || str_eq(s, "enabled") {
            Some(KeepAliveConfig::EnabledHostAndPrivatePoolPresent)
        } else if str_eq(s, "nohost,privatepool") {
            Some(KeepAliveConfig::DisabledHostAndPrivatePoolPresent)
        } else if str_eq(s, "nohost,noprivatepool") || str_eq(s, "disabled") || starts_with(
            s,
            "disabled,",
        ) {
            Some(KeepAliveConfig::Disabled)
        } else {
            None
        }
    }

    /// The configuration that `s` names, whatever its case.
    pub fn from_str(s: &str) -> (r: Result<KeepAliveConfig, InvalidValue>)
        ensures
            r is Ok <==> Self::parsed(lowercase(s@)) is Some,
            r matches Ok(c) ==> Self::parsed(lowercase(s@)) == Some(c),
            r matches Err(e) ==> e.message@ == "Invalid keepalive config: "@ + s@,
    {
        let lower = to_lowercase(s);
        match Self::from_lowercase(lower.as_str()) {
            Some(c) => Ok(c),
            None => Err(invalid("Invalid keepalive config: ", s)),
        }
    }

    /// Whether the device is kept alive.
    pub fn is_enabled(&self) -> (b: bool)
        ensures
            b == (*self == KeepAliveConfig::EnabledHostAndPrivatePoolPresent),
    {
        match *self {
            KeepAliveConfig::EnabledHostAndPrivatePoolPresent => true,
            _ => false,
        }
    }

    /// The name of the configuration.
    pub open spec fn name(self) -> Seq<char> {
        match self {
            KeepAliveConfig::EnabledHostAndPrivatePoolPresent => "enabled"@,
            KeepAliveConfig::DisabledHostAndPrivatePoolPresent => "nohost,privatepool"@,
            KeepAliveConfig::Disabled => "disabled"@,
        }
    }

    /// The name of the configuration.
    pub fn as_str(&self) -> (s: &'static str)
        ensures
            s@ == self.name(),
    {
        match *self {
            KeepAliveConfig::EnabledHostAndPrivatePoolPresent => "enabled",
            KeepAliveConfig::DisabledHostAndPrivatePoolPresent => "nohost,privatepool",
            KeepAliveConfig::Disabled => "disabled",
        }
    }
}

/// The name of a configuration names it.
pub proof fn name_is_parsed_back(c: KeepAliveConfig)
    ensures
        KeepAliveConfig::parsed(c.name()) == Some(c),
{
    reveal_strlit("enabled");
    reveal_strlit("nohost,privatepool");
    reveal_strlit("disabled");
    reveal_strlit("host,privatepool");
    reveal_strlit("nohost,noprivatepool");
    reveal_strlit("disabled,");
    assert("disabled"@.len() != "enabled"@.len());
    assert("nohost,privatepool"@.len() != "host,privatepool"@.len());
    assert("nohost,privatepool"@[0] == 'n');
}

/// Environment variables, and changes to them. A name in either list may occur more
/// than once; the last one counts.
#[derive(Debug)]
pub struct Environment {
    /// The variables.
    pub vars: Vec<(String, String)>,
    /// The changes: variables to set, or to remove.
    pub changes: Vec<(String, Option<String>)>,
}

/// The last value of a variable in a list.
pub open spec fn last_value(vars: Seq<(String, String)>, name: Seq<char>) -> Option<Seq<char>>
    decreases vars.len(),
{
    if vars.len() == 0 {
        None
    } else if vars.last().0@ == name {
        Some(vars.last().1@)
    } else {
        last_value(vars.drop_last(), name)
    }
}

/// The value of a variable after changes: `before` if they leave it alone.
pub open spec fn changed_value(
    changes: Seq<(String, Option<String>)>,
    name: Seq<char>,
    before: Option<Seq<char>>,
) -> Option<Seq<char>>
    decreases changes.len(),
{
    if changes.len() == 0 {
        before
    } else if changes.last().0@ == name {
        text_of(changes.last().1)
    } else {
        changed_value(changes.drop_last(), name, before)
    }
}

/// The text of an optional string.
pub open spec fn text_of(s: Option<String>) -> Option<Seq<char>> {
    match s {
        Some(s) => Some(s@),
        None => None,
    }
}

/// The name of a variable before the product was renamed.
pub open spec fn legacy_name(name: Seq<char>) -> Seq<char> {
    "UNDERHILL_"@ + if "OPENHCL_"@.is_prefix_of(name) {
        name.skip("OPENHCL_"@.len() as int)
    } else {
        name
    }
}

impl Environment {
    /// The value of a variable.
    pub open spec fn value(&self, name: Seq<char>) -> Option<Seq<char>> {
        changed_value(self.changes@, name, last_value(self.vars@, name))
    }

    /// The value of a variable, or else that of its older name.
    pub open spec fn legacy_value(&self, name: Seq<char>) -> Option<Seq<char>> {
        match self.value(name) {
            Some(v) => Some(v),
            None => self.value(legacy_name(name)),
        }
    }

    /// The value of a variable.
    pub fn read(&self, name: &str) -> (r: Option<String>)
        ensures
            text_of(r) == self.value(name@),
    {
        let mut i: usize = self.changes.len();
        let ghost before = last_value(self.vars@, name@);
        assert(self.changes@.take(i as int) =~= self.changes@);
        while i > 0
            invariant
                i <= self.changes@.len(),
                before == last_value(self.vars@, name@),
                changed_value(self.changes@.take(i as int), name@, before) == self.value(name@),
            decreases i,
        {
            i = i - 1;
            assert(self.changes@.take(i + 1).drop_last() =~= self.changes@.take(i as int));
            if str_eq(self.changes[i].0.as_str(), name) {
                return match &self.changes[i].1 {
                    Some(v) => Some(owned(v.as_str())),
                    None => None,
                };
            }
        }
        let mut i: usize = self.vars.len();
        assert(self.vars@.take(i as int) =~= self.vars@);
        while i > 0
            invariant
                i <= self.vars@.len(),
                last_value(self.vars@.take(i as int), name@) == self.value(name@),
            decreases i,
        {
            i = i - 1;
            assert(self.vars@.take(i + 1).drop_last() =~= self.vars@.take(i as int));
            if str_eq(self.vars[i].0.as_str(), name) {
                return Some(owned(self.vars[i].1.as_str()));
            }
        }
        None
    }

    /// The value of a variable, or else that of its older name.
    pub fn read_legacy(&self, name: &str) -> (r: Option<String>)
        ensures
            text_of(r) == self.legacy_value(name@),
    {
        match self.read(name) {
            Some(v) => Some(v),
            None => {
                let mut legacy = owned("UNDERHILL_");
                if starts_with(name, "OPENHCL_") {
                    proof {
                        reveal_strlit("OPENHCL_");
                    }
                    let rest = name.substring_char(8, name.unicode_len());
                    assert(rest@ =~= name@.skip(8));
                    legacy.append(rest);
                } else {
                    legacy.append(name);
                }
                self.read(legacy.as_str())
            },
        }
    }
}

/// The flag that a value gives, if it is one.
pub open spec fn flag_opt(v: Option<Seq<char>>) -> Option<bool> {
    match v {
        None => None,
        Some(v) => if same_ignoring_case(v, "true"@) || v == "1"@ {
            Some(true)
        } else if same_ignoring_case(v, "false"@) || v == "0"@ {
            Some(false)
        } else {
            None
        },
    }
}

/// The flag that a value gives: unset if it is none.
pub open spec fn flag(v: Option<Seq<char>>) -> bool {
    flag_opt(v) == Some(true)
}

fn parse_bool_opt(v: Option<String>) -> (r: Option<bool>)
    ensures
        r == flag_opt(text_of(v)),
{
    match v {
        None => None,
        Some(v) => {
            let v = v.as_str();
            if eq_ignore_ascii_case(v, "true") || str_eq(v, "1") {
                Some(true)
            } else if eq_ignore_ascii_case(v, "false") || str_eq(v, "0") {
                Some(false)
            } else {
                None
            }
        },
    }
}

fn parse_bool(v: Option<String>) -> (r: bool)
    ensures
        r == flag(text_of(v)),
{
    match parse_bool_opt(v) {
        Some(b) => b,
        None => false,
    }
}

/// The number that a value gives.
pub open spec fn number_opt(v: Option<Seq<char>>) -> Option<u64> {
    match v {
        None => None,
        Some(v) => match number(v, u64::MAX as nat) {
            Some(n) => Some(n as u64),
            None => None,
        },
    }
}

/// The number that a value gives, or else `default`.
pub open spec fn number_or(v: Option<Seq<char>>, default: u64) -> u64 {
    match number_opt(v) {
        Some(n) => n,
        None => default,
    }
}

/// Whether a value is set and is no number.
pub open spec fn bad_number(v: Option<Seq<char>>) -> bool {
    v is Some && number_opt(v) is None
}

/// Why the options cannot be parsed.
#[derive(Debug)]
pub enum OptionsError {
    /// The vmbus version is none.
    VmbusMaxVersion,
    /// The value of this variable is no number.
    InvalidNumber(String),
    /// A value has to follow this argument.
    ExpectedValue(String),
    /// There is no such argument.
    UnrecognizedArgument(String),
    /// This VNC port is none.
    InvalidVncPort(String),
}

/// What an error says.
pub enum ErrorView {
    /// The vmbus version is none.
    VmbusMaxVersion,
    /// The value of this variable is no number.
    InvalidNumber(Seq<char>),
    /// A value has to follow this argument.
    ExpectedValue(Seq<char>),
    /// There is no such argument.
    UnrecognizedArgument(Seq<char>),
    /// This VNC port is none.
    InvalidVncPort(Seq<char>),
}

impl View for OptionsError {
    type V = ErrorView;

    open spec fn view(&self) -> ErrorView {
        match self {
            OptionsError::VmbusMaxVersion => ErrorView::VmbusMaxVersion,
            OptionsError::InvalidNumber(s) => ErrorView::InvalidNumber(s@),
            OptionsError::ExpectedValue(s) => ErrorView::ExpectedValue(s@),
            OptionsError::UnrecognizedArgument(s) => ErrorView::UnrecognizedArgument(s@),
            OptionsError::InvalidVncPort(s) => ErrorView::InvalidVncPort(s@),
        }
    }
}

fn read_number(v: Option<String>, name: &str) -> (r: Result<Option<u64>, OptionsError>)
    ensures
        r is Err <==> bad_number(text_of(v)),
        r matches Ok(n) ==> n == number_opt(text_of(v)),
        r matches Err(e) ==> e@ == ErrorView::InvalidNumber(name@),
{
    match v {
        None => Ok(None),
        Some(s) => {
            match parse_number(s.as_str(), u64::MAX) {
                Some(n) => Ok(Some(n)),
                None => Err(OptionsError::InvalidNumber(owned(name))),
            }
        },
    }
}

/// What arguments can change.
#[derive(Debug)]
pub struct ArgState {
    /// Wait for a start request.
    pub wait_for_start: bool,
    /// Reformat the VMGS file.
    pub reformat_vmgs: bool,
    /// The file to write the process ID to.
    pub pid: Option<String>,
    /// The VNC port.
    pub vnc_port: Option<u32>,
}

/// What arguments can change.
pub struct ArgView {
    /// Wait for a start request.
    pub wait_for_start: bool,
    /// Reformat the VMGS file.
    pub reformat_vmgs: bool,
    /// The file to write the process ID to.
    pub pid: Option<Seq<char>>,
    /// The VNC port.
    pub vnc_port: Option<u32>,
}

impl View for ArgState {
    type V = ArgView;

    open spec fn view(&self) -> ArgView {
        ArgView {
            wait_for_start: self.wait_for_start,
            reformat_vmgs: self.reformat_vmgs,
            pid: text_of(self.pid),
            vnc_port: self.vnc_port,
        }
    }
}

/// What an argument with a value does.
pub open spec fn value_arg(name: Seq<char>, value: Seq<char>, st: ArgView) -> Result<
    ArgView,
    ErrorView,
> {
    if name == "--pid"@ {
        Ok(ArgView { pid: Some(value), ..st })
    } else if name == "--vnc-port"@ {
        match number(value, u32::MAX as nat) {
            Some(n) => Ok(ArgView { vnc_port: Some(n as u32), ..st }),
            None => Err(ErrorView::InvalidVncPort(value)),
        }
    } else {
        Err(ErrorView::UnrecognizedArgument(name))
    }
}

/// The place of the first equals sign from `i` on; the length if there is none.
pub open spec fn first_equals(s: Seq<char>, i: int) -> int
    decreases s.len() - i,
{
    if i >= s.len() || s[i] == '=' {
        i
    } else {
        first_equals(s, i + 1)
    }
}

/// What arguments do, without the name of the program.
pub open spec fn parsed_args(args: Seq<Seq<char>>, st: ArgView) -> Result<ArgView, ErrorView>
    decreases args.len(),
{
    if args.len() == 0 {
        Ok(st)
    } else {
        let arg = args[0];
        if arg == "--wait-for-start"@ {
            parsed_args(args.skip(1), ArgView { wait_for_start: true, ..st })
        } else if arg == "--reformat-vmgs"@ {
            parsed_args(args.skip(1), ArgView { reformat_vmgs: true, ..st })
        } else if "--"@.is_prefix_of(arg) && arg.len() > 2 {
            let eq = first_equals(arg, 0);
            if eq < arg.len() {
                match value_arg(arg.take(eq), arg.skip(eq + 1), st) {
                    Ok(st) => parsed_args(args.skip(1), st),
                    Err(e) => Err(e),
                }
            } else if args.len() > 1 {
                match value_arg(arg, args[1], st) {
                    Ok(st) => parsed_args(args.skip(2), st),
                    Err(e) => Err(e),
                }
            } else {
                Err(ErrorView::ExpectedValue(arg))
            }
        } else {
            Err(ErrorView::UnrecognizedArgument(arg))
        }
    }
}

/// The texts of a list of strings.
pub open spec fn texts(v: Seq<String>) -> Seq<Seq<char>> {
    v.map_values(|s: String| s@)
}

fn find_equals(s: &str) -> (r: usize)
    ensures
        r == first_equals(s@, 0),
        r <= s@.len(),
{
    let n: usize = s.unicode_len();
    let mut i: usize = 0;
    while i < n
        invariant
            i <= n,
            n == s@.len(),
            first_equals(s@, 0) == first_equals(s@, i as int),
        decreases n - i,
    {
        if s.get_char(i) == '=' {
            return i;
        }
        i = i + 1;
    }
    n
}

/// Options.
#[derive(Debug)]
pub struct Options {
    /// (OPENHCL_WAIT_FOR_START) wait for a diagnostics start request before starting the VM.
    pub wait_for_start: bool,
    /// (OPENHCL_SIGNAL_VTL0_STARTED) signal that VTL0 has started before any initialization.
    pub signal_vtl0_started: bool,
    /// (OPENHCL_REFORMAT_VMGS) reformat the VMGS file on boot.
    pub reformat_vmgs: bool,
    /// (OPENHCL_PID_FILE_PATH) the file to write the process ID to.
    pub pid: Option<String>,
    /// (OPENHCL_VMBUS_MAX_VERSION) the highest vmbus protocol version to allow.
    pub vmbus_max_version: Option<u32>,
    /// (OPENHCL_VMBUS_ENABLE_MNF) handle MNF in VTL2 rather than in the host.
    pub vmbus_enable_mnf: Option<bool>,
    /// (OPENHCL_VMBUS_FORCE_CONFIDENTIAL_EXTERNAL_MEMORY) use confidential external memory for all channels that are not relayed.
    pub vmbus_force_confidential_external_memory: bool,
    /// (OPENHCL_VMBUS_CHANNEL_UNSTICK_DELAY_MS) the delay before a channel that was opened is unstuck; zero for never.
    pub vmbus_channel_unstick_delay_ms: u64,
    /// (OPENHCL_CMDLINE_APPEND) what to append to the command line of VTL0.
    pub cmdline_append: Option<String>,
    /// (OPENHCL_VNC_PORT) the VNC port.
    pub vnc_port: u32,
    /// (OPENHCL_GDBSTUB) enable the GDB stub.
    pub gdbstub: bool,
    /// (OPENHCL_GDBSTUB_PORT) the port of the GDB stub.
    pub gdbstub_port: u32,
    /// (OPENHCL_VTL0_STARTS_PAUSED) start with VTL0 paused.
    pub vtl0_starts_paused: bool,
    /// (OPENHCL_FRAMEBUFFER_GPA_BASE) the address of the framebuffer, if there is a graphics device.
    pub framebuffer_gpa_base: Option<u64>,
    /// (OPENHCL_SERIAL_WAIT_FOR_RTS) wait for the guest before pulling serial data from the host.
    pub serial_wait_for_rts: bool,
    /// (OPENHCL_FORCE_LOAD_VTL0_IMAGE) the image to load in VTL0 in any case.
    pub force_load_vtl0_image: Option<String>,
    /// (OPENHCL_NVME_VFIO) use the user-mode NVMe driver.
    pub nvme_vfio: bool,
    /// (OPENHCL_MCR_DEVICE) enable the MCR device.
    pub mcr: bool,
    /// (OPENHCL_HIDE_ISOLATION) hide the isolation mode from the guest.
    pub hide_isolation: bool,
    /// (OPENHCL_HALT_ON_GUEST_HALT) halt VTL2 rather than forward a halt request to the host.
    pub halt_on_guest_halt: bool,
    /// (OPENHCL_NO_SIDECAR_HOTPLUG) leave sidecar processors remote even if they hit exits.
    pub no_sidecar_hotplug: bool,
    /// (OPENHCL_NVME_KEEP_ALIVE) whether NVMe devices are kept alive over servicing.
    pub nvme_keep_alive: KeepAliveConfig,
    /// (OPENHCL_MANA_KEEP_ALIVE) whether MANA devices are kept alive over servicing.
    pub mana_keep_alive: KeepAliveConfig,
    /// (OPENHCL_NVME_ALWAYS_FLR) always reset NVMe devices by a function level reset.
    pub nvme_always_flr: bool,
    /// (OPENHCL_TEST_CONFIG) the scenario to simulate.
    pub test_configuration: Option<TestScenarioConfig>,
    /// (OPENHCL_DISABLE_UEFI_FRONTPAGE) shut the guest down rather than show the UEFI frontpage.
    pub disable_uefi_frontpage: Option<bool>,
    /// (HCL_DEFAULT_BOOT_ALWAYS_ATTEMPT) always attempt a default boot.
    pub default_boot_always_attempt: Option<bool>,
    /// (HCL_GUEST_STATE_LIFETIME) the lifetime of the guest state.
    pub guest_state_lifetime: Option<GuestStateLifetimeCli>,
    /// (HCL_GUEST_STATE_ENCRYPTION_POLICY) how the guest state is encrypted.
    pub guest_state_encryption_policy: Option<GuestStateEncryptionPolicyCli>,
    /// (HCL_STRICT_ENCRYPTION_POLICY) whether that policy is strict.
    pub strict_encryption_policy: Option<bool>,
    /// (HCL_ATTEMPT_AK_CERT_CALLBACK) attempt to renew the AK certificate.
    pub attempt_ak_cert_callback: Option<bool>,
    /// (OPENHCL_ENABLE_VPCI_RELAY) enable the VPCI relay.
    pub enable_vpci_relay: Option<bool>,
    /// (OPENHCL_DISABLE_PROXY_REDIRECT) disable the redirection of proxy interrupts.
    pub disable_proxy_redirect: bool,
    /// (OPENHCL_DISABLE_LOWER_VTL_TIMER_VIRT) disable timer virtualization for lower VTLs.
    pub disable_lower_vtl_timer_virt: bool,
    /// (OPENHCL_CONFIG_TIMEOUT_IN_SECONDS) the timeout of configuration operations.
    pub config_timeout_in_seconds: u64,
    /// (OPENHCL_SERVICING_TIMEOUT_DUMP_COLLECTION_IN_MS) the time to wait for a dump when servicing panics.
    pub servicing_timeout_dump_collection_in_ms: u64,
}

/// The configuration that a value names: disabled if it names none.
pub open spec fn keep_alive(v: Option<Seq<char>>) -> KeepAliveConfig {
    match v {
        Some(s) => match KeepAliveConfig::parsed(lowercase(s)) {
            Some(c) => c,
            None => KeepAliveConfig::Disabled,
        },
        None => KeepAliveConfig::Disabled,
    }
}

fn parse_keep_alive(v: Option<String>) -> (c: KeepAliveConfig)
    ensures
        c == keep_alive(text_of(v)),
{
    match v {
        Some(s) => match KeepAliveConfig::from_str(s.as_str()) {
            Ok(c) => c,
            Err(_) => KeepAliveConfig::Disabled,
        },
        None => KeepAliveConfig::Disabled,
    }
}

fn parse_test(v: Option<String>) -> (r: Option<TestScenarioConfig>)
    ensures
        r == match text_of(v) {
            Some(s) => TestScenarioConfig::parsed(s),
            None => None::<TestScenarioConfig>,
        },
{
    match v {
        Some(s) => match TestScenarioConfig::from_str(s.as_str()) {
            Ok(c) => Some(c),
            Err(_) => None,
        },
        None => None,
    }
}

fn parse_lifetime(v: Option<String>) -> (r: Option<GuestStateLifetimeCli>)
    ensures
        r == match text_of(v) {
            Some(s) => GuestStateLifetimeCli::parsed(s),
            None => None::<GuestStateLifetimeCli>,
        },
{
    match v {
        Some(s) => match GuestStateLifetimeCli::from_str(s.as_str()) {
            Ok(c) => Some(c),
            Err(_) => None,
        },
        None => None,
    }
}

fn parse_policy(v: Option<String>) -> (r: Option<GuestStateEncryptionPolicyCli>)
    ensures
        r == match text_of(v) {
            Some(s) => GuestStateEncryptionPolicyCli::parsed(s),
            None => None::<GuestStateEncryptionPolicyCli>,
        },
{
    match v {
        Some(s) => match GuestStateEncryptionPolicyCli::from_str(s.as_str()) {
            Ok(c) => Some(c),
            Err(_) => None,
        },
        None => None,
    }
}

impl Options {
    /// Whether these are the options that the environment and the arguments give.
    pub open spec fn given_by(&self, env: Environment, version: Option<u32>, args: ArgView) -> bool {
        &&& self.wait_for_start == args.wait_for_start
        &&& self.signal_vtl0_started == flag(env.value("OPENHCL_SIGNAL_VTL0_STARTED"@))
        &&& self.reformat_vmgs == args.reformat_vmgs
        &&& text_of(self.pid) == args.pid
        &&& self.vmbus_max_version == if env.legacy_value("OPENHCL_VMBUS_MAX_VERSION"@) is Some { version } else { None }
        &&& self.vmbus_enable_mnf == if env.legacy_value("OPENHCL_VMBUS_ENABLE_MNF"@) is Some { Some(flag(env.legacy_value("OPENHCL_VMBUS_ENABLE_MNF"@))) } else { None }
        &&& self.vmbus_force_confidential_external_memory == flag(env.value("OPENHCL_VMBUS_FORCE_CONFIDENTIAL_EXTERNAL_MEMORY"@))
        &&& self.vmbus_channel_unstick_delay_ms == number_or(env.legacy_value("OPENHCL_VMBUS_CHANNEL_UNSTICK_DELAY_MS"@), 100)
        &&& text_of(self.cmdline_append) == env.legacy_value("OPENHCL_CMDLINE_APPEND"@)
        &&& self.vnc_port == match args.vnc_port { Some(port) => port, None => 3 }
        &&& self.gdbstub == flag(env.legacy_value("OPENHCL_GDBSTUB"@))
        &&& self.gdbstub_port == number_or(env.legacy_value("OPENHCL_GDBSTUB_PORT"@), 4) as u32
        &&& self.vtl0_starts_paused == flag(env.legacy_value("OPENHCL_VTL0_STARTS_PAUSED"@))
        &&& self.framebuffer_gpa_base == number_opt(env.legacy_value("OPENHCL_FRAMEBUFFER_GPA_BASE"@))
        &&& self.serial_wait_for_rts == flag(env.legacy_value("OPENHCL_SERIAL_WAIT_FOR_RTS"@))
        &&& text_of(self.force_load_vtl0_image) == env.legacy_value("OPENHCL_FORCE_LOAD_VTL0_IMAGE"@)
        &&& self.nvme_vfio == flag(env.legacy_value("OPENHCL_NVME_VFIO"@))
        &&& self.mcr == flag(env.legacy_value("OPENHCL_MCR_DEVICE"@))
        &&& self.hide_isolation == flag(env.value("OPENHCL_HIDE_ISOLATION"@))
        &&& self.halt_on_guest_halt == flag(env.legacy_value("OPENHCL_HALT_ON_GUEST_HALT"@))
        &&& self.no_sidecar_hotplug == flag(env.legacy_value("OPENHCL_NO_SIDECAR_HOTPLUG"@))
        &&& self.nvme_keep_alive == keep_alive(env.value("OPENHCL_NVME_KEEP_ALIVE"@))
        &&& self.mana_keep_alive == keep_alive(env.value("OPENHCL_MANA_KEEP_ALIVE"@))
        &&& self.nvme_always_flr == flag(env.value("OPENHCL_NVME_ALWAYS_FLR"@))
        &&& self.test_configuration == match env.value("OPENHCL_TEST_CONFIG"@) { Some(s) => TestScenarioConfig::parsed(s), None => None }
        &&& self.disable_uefi_frontpage == flag_opt(env.value("OPENHCL_DISABLE_UEFI_FRONTPAGE"@))
        &&& self.default_boot_always_attempt == flag_opt(env.value("HCL_DEFAULT_BOOT_ALWAYS_ATTEMPT"@))
        &&& self.guest_state_lifetime == match env.value("HCL_GUEST_STATE_LIFETIME"@) { Some(s) => GuestStateLifetimeCli::parsed(s), None => None }
        &&& self.guest_state_encryption_policy == match env.value("HCL_GUEST_STATE_ENCRYPTION_POLICY"@) { Some(s) => GuestStateEncryptionPolicyCli::parsed(s), None => None }
        &&& self.strict_encryption_policy == flag_opt(env.value("HCL_STRICT_ENCRYPTION_POLICY"@))
        &&& self.attempt_ak_cert_callback == flag_opt(env.value("HCL_ATTEMPT_AK_CERT_CALLBACK"@))
        &&& self.enable_vpci_relay == flag_opt(env.value("OPENHCL_ENABLE_VPCI_RELAY"@))
        &&& self.disable_proxy_redirect == flag(env.value("OPENHCL_DISABLE_PROXY_REDIRECT"@))
        &&& self.disable_lower_vtl_timer_virt == flag(env.value("OPENHCL_DISABLE_LOWER_VTL_TIMER_VIRT"@))
        &&& self.config_timeout_in_seconds == number_or(env.legacy_value("OPENHCL_CONFIG_TIMEOUT_IN_SECONDS"@), 5)
        &&& self.servicing_timeout_dump_collection_in_ms == number_or(env.value("OPENHCL_SERVICING_TIMEOUT_DUMP_COLLECTION_IN_MS"@), 500)
    }

    /// What an argument with a value does.
    pub fn parse_value_arg(
        name: &str,
        value: &str,
        pid: &mut Option<String>,
        vnc_port: &mut Option<u32>,
    ) -> (r: Result<(), OptionsError>)
        ensures
            ({
                let st = ArgView {
                    wait_for_start: false,
                    reformat_vmgs: false,
                    pid: text_of(*old(pid)),
                    vnc_port: *old(vnc_port),
                };
                match value_arg(name@, value@, st) {
                    Ok(st) => r is Ok && text_of(*final(pid)) == st.pid && *final(vnc_port)
                        == st.vnc_port,
                    Err(e) => {
                        &&& r is Err
                        &&& r->Err_0@ == e
                        &&& *final(pid) == *old(pid)
                        &&& *final(vnc_port) == *old(vnc_port)
                    },
                }
            }),
    {
        proof {
            reveal_strlit("--pid");
            reveal_strlit("--vnc-port");
        }
        if str_eq(name, "--pid") {
            *pid = Some(owned(value));
            Ok(())
        } else if str_eq(name, "--vnc-port") {
            match parse_number(value, u32::MAX as u64) {
                Some(n) => {
                    *vnc_port = Some(n as u32);
                    Ok(())
                },
                None => Err(OptionsError::InvalidVncPort(owned(value))),
            }
        } else {
            Err(OptionsError::UnrecognizedArgument(owned(name)))
        }
    }

    /// What arguments do, without the name of the program.
    pub fn parse_args(args: &Vec<String>, before: ArgState) -> (r: Result<ArgState, OptionsError>)
        ensures
            match parsed_args(texts(args@), before@) {
                Ok(v) => r is Ok && r->Ok_0@ == v,
                Err(e) => r is Err && r->Err_0@ == e,
            },
    {
        let ghost all = texts(args@);
        let ghost first = before@;
        let mut st = before;
        let mut i: usize = 0;
        assert(all.skip(0) =~= all);
        while i < args.len()
            invariant
                i <= args@.len(),
                all == texts(args@),
                first == before@,
                parsed_args(all, first) == parsed_args(all.skip(i as int), st@),
            decreases args@.len() - i,
        {
            let arg = args[i].as_str();
            let ghost rest = all.skip(i as int);
            assert(rest[0] == arg@);
            assert(rest.skip(1) =~= all.skip(i + 1));
            if str_eq(arg, "--wait-for-start") {
                st.wait_for_start = true;
                i = i + 1;
            } else if str_eq(arg, "--reformat-vmgs") {
                st.reformat_vmgs = true;
                i = i + 1;
            } else if starts_with(arg, "--") && arg.unicode_len() > 2 {
                let n: usize = arg.unicode_len();
                let eq: usize = find_equals(arg);
                let mut pid = st.pid;
                let mut vnc_port = st.vnc_port;
                if eq < n {
                    let name = arg.substring_char(0, eq);
                    let value = arg.substring_char(eq + 1, n);
                    assert(name@ =~= arg@.take(eq as int));
                    assert(value@ =~= arg@.skip(eq + 1));
                    match Self::parse_value_arg(name, value, &mut pid, &mut vnc_port) {
                        Ok(_) => {},
                        Err(e) => {
                            return Err(e);
                        },
                    }
                    i = i + 1;
                } else if i + 1 < args.len() {
                    let value = args[i + 1].as_str();
                    assert(rest[1] == value@);
                    assert(rest.skip(2) =~= all.skip(i + 2));
                    match Self::parse_value_arg(arg, value, &mut pid, &mut vnc_port) {
                        Ok(_) => {},
                        Err(e) => {
                            return Err(e);
                        },
                    }
                    i = i + 2;
                } else {
                    return Err(OptionsError::ExpectedValue(owned(arg)));
                }
                st = ArgState {
                    wait_for_start: st.wait_for_start,
                    reformat_vmgs: st.reformat_vmgs,
                    pid,
                    vnc_port,
                };
            } else {
                return Err(OptionsError::UnrecognizedArgument(owned(arg)));
            }
        }
        Ok(st)
    }
}

/// What variables give before the arguments are looked at.
pub open spec fn env_args(env: Environment) -> ArgView {
    ArgView {
        wait_for_start: flag(env.legacy_value("OPENHCL_WAIT_FOR_START"@)),
        reformat_vmgs: flag(env.legacy_value("OPENHCL_REFORMAT_VMGS"@)),
        pid: env.legacy_value("OPENHCL_PID_FILE_PATH"@),
        vnc_port: match number_opt(env.legacy_value("OPENHCL_VNC_PORT"@)) {
            Some(n) => Some(n as u32),
            None => None,
        },
    }
}

/// The first thing that is wrong with the variables.
pub open spec fn env_error(env: Environment, version: Option<u32>) -> Option<ErrorView> {
    if env.legacy_value("OPENHCL_VMBUS_MAX_VERSION"@) is Some && version is None {
        Some(ErrorView::VmbusMaxVersion)
    } else if bad_number(env.legacy_value("OPENHCL_VMBUS_CHANNEL_UNSTICK_DELAY_MS"@)) {
        Some(ErrorView::InvalidNumber("OPENHCL_VMBUS_CHANNEL_UNSTICK_DELAY_MS"@))
    } else if bad_number(env.legacy_value("OPENHCL_VNC_PORT"@)) {
        Some(ErrorView::InvalidNumber("OPENHCL_VNC_PORT"@))
    } else if bad_number(env.legacy_value("OPENHCL_FRAMEBUFFER_GPA_BASE"@)) {
        Some(ErrorView::InvalidNumber("OPENHCL_FRAMEBUFFER_GPA_BASE"@))
    } else if bad_number(env.legacy_value("OPENHCL_GDBSTUB_PORT"@)) {
        Some(ErrorView::InvalidNumber("OPENHCL_GDBSTUB_PORT"@))
    } else if bad_number(env.legacy_value("OPENHCL_CONFIG_TIMEOUT_IN_SECONDS"@)) {
        Some(ErrorView::InvalidNumber("OPENHCL_CONFIG_TIMEOUT_IN_SECONDS"@))
    } else if bad_number(env.value("OPENHCL_SERVICING_TIMEOUT_DUMP_COLLECTION_IN_MS"@)) {
        Some(ErrorView::InvalidNumber("OPENHCL_SERVICING_TIMEOUT_DUMP_COLLECTION_IN_MS"@))
    } else {
        None
    }
}

struct Numbers {
    vmbus_channel_unstick_delay_ms: u64,
    vnc_port: Option<u32>,
    framebuffer_gpa_base: Option<u64>,
    gdbstub_port: u32,
    config_timeout_in_seconds: u64,
    servicing_timeout_dump_collection_in_ms: u64,
}

impl Numbers {
    spec fn read_from(self, env: Environment) -> bool {
        &&& self.vmbus_channel_unstick_delay_ms == number_or( env.legacy_value("OPENHCL_VMBUS_CHANNEL_UNSTICK_DELAY_MS"@), 100, )
        &&& self.vnc_port == env_args(env).vnc_port
        &&& self.framebuffer_gpa_base == number_opt( env.legacy_value("OPENHCL_FRAMEBUFFER_GPA_BASE"@), )
        &&& self.gdbstub_port == number_or(env.legacy_value("OPENHCL_GDBSTUB_PORT"@), 4) as u32
        &&& self.config_timeout_in_seconds == number_or( env.legacy_value("OPENHCL_CONFIG_TIMEOUT_IN_SECONDS"@), 5, )
        &&& self.servicing_timeout_dump_collection_in_ms == number_or( env.value("OPENHCL_SERVICING_TIMEOUT_DUMP_COLLECTION_IN_MS"@), 500, )
    }
}

fn or(v: Option<u64>, default: u64) -> (r: u64)
    ensures
        r == match v {
            Some(n) => n,
            None => default,
        },
{
    match v {
        Some(n) => n,
        None => default,
    }
}

fn read_numbers(env: &Environment) -> (r: Result<Numbers, OptionsError>)
    ensures
        match env_error(*env, Some(0)) {
            Some(e) => r is Err && r->Err_0@ == e,
            None => r matches Ok(n) && n.read_from(*env),
        },
{
    let delay: Option<u64> = match read_number(
        env.read_legacy("OPENHCL_VMBUS_CHANNEL_UNSTICK_DELAY_MS"),
        "OPENHCL_VMBUS_CHANNEL_UNSTICK_DELAY_MS",
    ) {
        Ok(n) => n,
        Err(e) => {
            return Err(e);
        },
    };
    let vnc_port: Option<u64> = match read_number(
        env.read_legacy("OPENHCL_VNC_PORT"),
        "OPENHCL_VNC_PORT",
    ) {
        Ok(n) => n,
        Err(e) => {
            return Err(e);
        },
    };
    let framebuffer: Option<u64> = match read_number(
        env.read_legacy("OPENHCL_FRAMEBUFFER_GPA_BASE"),
        "OPENHCL_FRAMEBUFFER_GPA_BASE",
    ) {
        Ok(n) => n,
        Err(e) => {
            return Err(e);
        },
    };
    let gdbstub_port: Option<u64> = match read_number(
        env.read_legacy("OPENHCL_GDBSTUB_PORT"),
        "OPENHCL_GDBSTUB_PORT",
    ) {
        Ok(n) => n,
        Err(e) => {
            return Err(e);
        },
    };
    let config_timeout: Option<u64> = match read_number(
        env.read_legacy("OPENHCL_CONFIG_TIMEOUT_IN_SECONDS"),
        "OPENHCL_CONFIG_TIMEOUT_IN_SECONDS",
    ) {
        Ok(n) => n,
        Err(e) => {
            return Err(e);
        },
    };
    let dump_timeout: Option<u64> = match read_number(
        env.read("OPENHCL_SERVICING_TIMEOUT_DUMP_COLLECTION_IN_MS"),
        "OPENHCL_SERVICING_TIMEOUT_DUMP_COLLECTION_IN_MS",
    ) {
        Ok(n) => n,
        Err(e) => {
            return Err(e);
        },
    };
    let vnc_port: Option<u32> = match vnc_port {
        Some(n) => {
            #[verifier::truncate]
            let port: u32 = n as u32;
            Some(port)
        },
        None => None,
    };
    #[verifier::truncate]
    let gdbstub_port: u32 = or(gdbstub_port, 4) as u32;
    Ok(
        Numbers {
            vmbus_channel_unstick_delay_ms: or(delay, 100),
            vnc_port,
            framebuffer_gpa_base: framebuffer,
            gdbstub_port,
            config_timeout_in_seconds: or(config_timeout, 5),
            servicing_timeout_dump_collection_in_ms: or(dump_timeout, 500),
        },
    )
}

impl Options {
    #[verifier::rlimit(60)]
    fn build(env: &Environment, vmbus_max_version: Option<u32>, numbers: Numbers, args: ArgState) -> (o:
        Options)
        requires
            numbers.read_from(*env),
            env.legacy_value("OPENHCL_VMBUS_MAX_VERSION"@) is None ==> vmbus_max_version is None,
        ensures
            o.given_by(*env, vmbus_max_version, args@),
    {
        let vnc_port: u32 = match args.vnc_port {
            Some(port) => port,
            None => 3,
        };
        let mnf = env.read_legacy("OPENHCL_VMBUS_ENABLE_MNF");
        let vmbus_enable_mnf: Option<bool> = if mnf.is_some() {
            Some(parse_bool(mnf))
        } else {
            None
        };
        Options {
            wait_for_start: args.wait_for_start,
            signal_vtl0_started: parse_bool(env.read("OPENHCL_SIGNAL_VTL0_STARTED")),
            reformat_vmgs: args.reformat_vmgs,
            pid: args.pid,
            vmbus_max_version: vmbus_max_version,
            vmbus_enable_mnf: vmbus_enable_mnf,
            vmbus_force_confidential_external_memory: parse_bool(env.read("OPENHCL_VMBUS_FORCE_CONFIDENTIAL_EXTERNAL_MEMORY")),
            vmbus_channel_unstick_delay_ms: numbers.vmbus_channel_unstick_delay_ms,
            cmdline_append: env.read_legacy("OPENHCL_CMDLINE_APPEND"),
            vnc_port: vnc_port,
            gdbstub: parse_bool(env.read_legacy("OPENHCL_GDBSTUB")),
            gdbstub_port: numbers.gdbstub_port,
            vtl0_starts_paused: parse_bool(env.read_legacy("OPENHCL_VTL0_STARTS_PAUSED")),
            framebuffer_gpa_base: numbers.framebuffer_gpa_base,
            serial_wait_for_rts: parse_bool(env.read_legacy("OPENHCL_SERIAL_WAIT_FOR_RTS")),
            force_load_vtl0_image: env.read_legacy("OPENHCL_FORCE_LOAD_VTL0_IMAGE"),
            nvme_vfio: parse_bool(env.read_legacy("OPENHCL_NVME_VFIO")),
            mcr: parse_bool(env.read_legacy("OPENHCL_MCR_DEVICE")),
            hide_isolation: parse_bool(env.read("OPENHCL_HIDE_ISOLATION")),
            halt_on_guest_halt: parse_bool(env.read_legacy("OPENHCL_HALT_ON_GUEST_HALT")),
            no_sidecar_hotplug: parse_bool(env.read_legacy("OPENHCL_NO_SIDECAR_HOTPLUG")),
            nvme_keep_alive: parse_keep_alive(env.read("OPENHCL_NVME_KEEP_ALIVE")),
            mana_keep_alive: parse_keep_alive(env.read("OPENHCL_MANA_KEEP_ALIVE")),
            nvme_always_flr: parse_bool(env.read("OPENHCL_NVME_ALWAYS_FLR")),
            test_configuration: parse_test(env.read("OPENHCL_TEST_CONFIG")),
            disable_uefi_frontpage: parse_bool_opt(env.read("OPENHCL_DISABLE_UEFI_FRONTPAGE")),
            default_boot_always_attempt: parse_bool_opt(env.read("HCL_DEFAULT_BOOT_ALWAYS_ATTEMPT")),
            guest_state_lifetime: parse_lifetime(env.read("HCL_GUEST_STATE_LIFETIME")),
            guest_state_encryption_policy: parse_policy(env.read("HCL_GUEST_STATE_ENCRYPTION_POLICY")),
            strict_encryption_policy: parse_bool_opt(env.read("HCL_STRICT_ENCRYPTION_POLICY")),
            attempt_ak_cert_callback: parse_bool_opt(env.read("HCL_ATTEMPT_AK_CERT_CALLBACK")),
            enable_vpci_relay: parse_bool_opt(env.read("OPENHCL_ENABLE_VPCI_RELAY")),
            disable_proxy_redirect: parse_bool(env.read("OPENHCL_DISABLE_PROXY_REDIRECT")),
            disable_lower_vtl_timer_virt: parse_bool(env.read("OPENHCL_DISABLE_LOWER_VTL_TIMER_VIRT")),
            config_timeout_in_seconds: numbers.config_timeout_in_seconds,
            servicing_timeout_dump_collection_in_ms: numbers.servicing_timeout_dump_collection_in_ms,
        }
    }

    /// Parses the environment and the arguments, which are without the name of the
    /// program. `version` is the vmbus version that the text of
    /// OPENHCL_VMBUS_MAX_VERSION names, if that is set and names one.
    pub fn parse(env: &Environment, version: Option<u32>, args: &Vec<String>) -> (r: Result<
        Options,
        OptionsError,
    >)
        ensures
            match env_error(*env, version) {
                Some(e) => r is Err && r->Err_0@ == e,
                None => match parsed_args(texts(args@), env_args(*env)) {
                    Err(e) => r is Err && r->Err_0@ == e,
                    Ok(st) => r is Ok && r->Ok_0.given_by(*env, version, st),
                },
            },
    {
        let vmbus_max_version: Option<u32> = match env.read_legacy("OPENHCL_VMBUS_MAX_VERSION") {
            None => None,
            Some(_) => {
                if version.is_none() {
                    return Err(OptionsError::VmbusMaxVersion);
                }
                version
            },
        };
        let numbers = match read_numbers(env) {
            Ok(n) => n,
            Err(e) => {
                return Err(e);
            },
        };
        let before = ArgState {
            wait_for_start: parse_bool(env.read_legacy("OPENHCL_WAIT_FOR_START")),
            reformat_vmgs: parse_bool(env.read_legacy("OPENHCL_REFORMAT_VMGS")),
            pid: env.read_legacy("OPENHCL_PID_FILE_PATH"),
            vnc_port: numbers.vnc_port,
        };
        assert(before@ == env_args(*env));
        let args = match Self::parse_args(args, before) {
            Ok(args) => args,
            Err(e) => {
                return Err(e);
            },
        };
        Ok(Self::build(env, vmbus_max_version, numbers, args))
    }
}

/// Options that are not set have their defaults.
pub proof fn defaults(env: Environment, version: Option<u32>, o: Options)
    requires
        forall|name: Seq<char>| #[trigger] env.value(name) is None,
        o.given_by(env, version, env_args(env)),
    ensures
        !o.wait_for_start,
        o.pid is None,
        o.vmbus_channel_unstick_delay_ms == 100,
        o.vnc_port == 3,
        o.gdbstub_port == 4,
        o.config_timeout_in_seconds == 5,
        o.servicing_timeout_dump_collection_in_ms == 500,
        o.nvme_keep_alive == KeepAliveConfig::Disabled,
        o.mana_keep_alive == KeepAliveConfig::Disabled,
        env_error(env, version) is None,
{
    assert(env.value("OPENHCL_VMBUS_MAX_VERSION"@) is None);
}

/// A change to the environment counts, whatever was set before.
pub proof fn last_change_counts(env: Environment, change: (String, Option<String>))
    requires
        env.changes@.len() > 0,
        env.changes@.last() == change,
    ensures
        env.value(change.0@) == text_of(change.1),
{
}

/// Before the product was renamed, variables had another prefix. The older name of a variable
/// has it in place of the newer one, or in front.
pub proof fn older_name_has_older_prefix(rest: Seq<char>)
    ensures
        legacy_name("OPENHCL_"@ + rest) == "UNDERHILL_"@ + rest,
        !"OPENHCL_"@.is_prefix_of(rest) ==> legacy_name(rest) == "UNDERHILL_"@ + rest,
{
    let prefix = "OPENHCL_"@;
    assert((prefix + rest).skip(prefix.len() as int) =~= rest);
    assert(prefix.is_prefix_of(prefix + rest)) by {
        assert((prefix + rest).take(prefix.len() as int) =~= prefix);
    }
}

/// Of several values of a variable the last one counts. A variable that is not in the list has
/// none.
pub proof fn last_value_counts(vars: Seq<(String, String)>, name: Seq<char>)
    ensures
        match last_value(vars, name) {
            Some(v) => exists|i: int|
                0 <= i < vars.len() && (#[trigger] vars[i]).0@ == name && vars[i].1@ == v
                    && forall|k: int| i < k < vars.len() ==> (#[trigger] vars[k]).0@ != name,
            None => forall|k: int| 0 <= k < vars.len() ==> (#[trigger] vars[k]).0@ != name,
        },
    decreases vars.len(),
{
    if vars.len() > 0 {
        let rest = vars.drop_last();
        let n = vars.len() - 1;
        last_value_counts(rest, name);
        if vars.last().0@ == name {
            assert(vars[n].0@ == name);
        } else if let Some(v) = last_value(rest, name) {
            let i = choose|i: int|
                0 <= i < rest.len() && (#[trigger] rest[i]).0@ == name && rest[i].1@ == v
                    && forall|k: int| i < k < rest.len() ==> (#[trigger] rest[k]).0@ != name;
            assert(vars[i].0@ == name);
            assert forall|k: int| i < k < vars.len() implies (#[trigger] vars[k]).0@ != name by {
                if k < n {
                    assert(rest[k].0@ != name);
                }
            }
        } else {
            assert forall|k: int| 0 <= k < vars.len() implies (#[trigger] vars[k]).0@ != name by {
                if k < n {
                    assert(rest[k].0@ != name);
                }
            }
        }
    }
}

/// The last change of a variable decides, and may remove it. Changes of other variables leave
/// it alone.
pub proof fn last_change_decides(
    changes: Seq<(String, Option<String>)>,
    name: Seq<char>,
    before: Option<Seq<char>>,
)
    ensures
        changed_value(changes, name, before) == before || exists|i: int|
            0 <= i < changes.len() && (#[trigger] changes[i]).0@ == name && changed_value(
                changes,
                name,
                before,
            ) == text_of(changes[i].1) && forall|k: int|
                i < k < changes.len() ==> (#[trigger] changes[k]).0@ != name,
        (forall|k: int| 0 <= k < changes.len() ==> (#[trigger] changes[k]).0@ != name)
            ==> changed_value(changes, name, before) == before,
    decreases changes.len(),
{
    if changes.len() > 0 {
        let rest = changes.drop_last();
        let n = changes.len() - 1;
        last_change_decides(rest, name, before);
        if changes.last().0@ == name {
            assert(changes[n].0@ == name);
        } else {
            if forall|k: int| 0 <= k < changes.len() ==> (#[trigger] changes[k]).0@ != name {
                assert forall|k: int| 0 <= k < rest.len() implies (#[trigger] rest[k]).0@ != name by {
                    assert(changes[k].0@ != name);
                }
            }
            if changed_value(rest, name, before) != before {
                let i = choose|i: int|
                    0 <= i < rest.len() && (#[trigger] rest[i]).0@ == name && changed_value(
                        rest,
                        name,
                        before,
                    ) == text_of(rest[i].1) && forall|k: int|
                        i < k < rest.len() ==> (#[trigger] rest[k]).0@ != name;
                assert(changes[i].0@ == name);
                assert forall|k: int| i < k < changes.len() implies (#[trigger] changes[k]).0@
                    != name by {
                    if k < n {
                        assert(rest[k].0@ != name);
                    }
                }
            }
        }
    }
}

/// A flag is set by "1" or "true" and cleared by "0" or "false", in any case. Any other value
/// is none.
pub proof fn flags_are_read(v: Seq<char>)
    ensures
        flag_opt(None) is None,
        flag_opt(Some("1"@)) == Some(true),
        flag_opt(Some("0"@)) == Some(false),
        same_ignoring_case(v, "true"@) ==> flag_opt(Some(v)) == Some(true),
        same_ignoring_case(v, "false"@) ==> flag_opt(Some(v)) == Some(false),
        flag_opt(Some(v)) is Some ==> v == "1"@ || v == "0"@ || same_ignoring_case(v, "true"@)
            || same_ignoring_case(v, "false"@),
        flag(Some(v)) <==> v == "1"@ || same_ignoring_case(v, "true"@),
        !flag(None),
{
    reveal_strlit("1");
    reveal_strlit("0");
    reveal_strlit("true");
    reveal_strlit("false");
    assert("0"@[0] == '0');
    assert("1"@[0] == '1');
}

/// Each switch has its variable, which sets it with "1", and without which it is off. Some
/// variables are also known by their older names, which count if the newer one is not there.
pub proof fn switches_have_their_variables(
    env: Environment,
    version: Option<u32>,
    args: ArgView,
    o: Options,
)
    requires
        o.given_by(env, version, args),
    ensures
        env.value("OPENHCL_SIGNAL_VTL0_STARTED"@) == Some("1"@) ==> o.signal_vtl0_started,
        env.value("OPENHCL_SIGNAL_VTL0_STARTED"@) is None || env.value("OPENHCL_SIGNAL_VTL0_STARTED"@) == Some("0"@) ==> !o.signal_vtl0_started,
        env.value("OPENHCL_VMBUS_FORCE_CONFIDENTIAL_EXTERNAL_MEMORY"@) == Some("1"@) ==> o.vmbus_force_confidential_external_memory,
        env.value("OPENHCL_VMBUS_FORCE_CONFIDENTIAL_EXTERNAL_MEMORY"@) is None || env.value("OPENHCL_VMBUS_FORCE_CONFIDENTIAL_EXTERNAL_MEMORY"@) == Some("0"@) ==> !o.vmbus_force_confidential_external_memory,
        env.value("OPENHCL_GDBSTUB"@) == Some("1"@) ==> o.gdbstub,
        env.value("OPENHCL_GDBSTUB"@) is None && env.value(legacy_name("OPENHCL_GDBSTUB"@)) == Some("1"@) ==> o.gdbstub,
        env.value("OPENHCL_GDBSTUB"@) == Some("0"@) ==> !o.gdbstub,
        env.value("OPENHCL_GDBSTUB"@) is None && env.value(legacy_name("OPENHCL_GDBSTUB"@)) is None ==> !o.gdbstub,
        env.value("OPENHCL_VTL0_STARTS_PAUSED"@) == Some("1"@) ==> o.vtl0_starts_paused,
        env.value("OPENHCL_VTL0_STARTS_PAUSED"@) is None && env.value(legacy_name("OPENHCL_VTL0_STARTS_PAUSED"@)) == Some("1"@) ==> o.vtl0_starts_paused,
        env.value("OPENHCL_VTL0_STARTS_PAUSED"@) == Some("0"@) ==> !o.vtl0_starts_paused,
        env.value("OPENHCL_VTL0_STARTS_PAUSED"@) is None && env.value(legacy_name("OPENHCL_VTL0_STARTS_PAUSED"@)) is None ==> !o.vtl0_starts_paused,
        env.value("OPENHCL_SERIAL_WAIT_FOR_RTS"@) == Some("1"@) ==> o.serial_wait_for_rts,
        env.value("OPENHCL_SERIAL_WAIT_FOR_RTS"@) is None && env.value(legacy_name("OPENHCL_SERIAL_WAIT_FOR_RTS"@)) == Some("1"@) ==> o.serial_wait_for_rts,
        env.value("OPENHCL_SERIAL_WAIT_FOR_RTS"@) == Some("0"@) ==> !o.serial_wait_for_rts,
        env.value("OPENHCL_SERIAL_WAIT_FOR_RTS"@) is None && env.value(legacy_name("OPENHCL_SERIAL_WAIT_FOR_RTS"@)) is None ==> !o.serial_wait_for_rts,
        env.value("OPENHCL_NVME_VFIO"@) == Some("1"@) ==> o.nvme_vfio,
        env.value("OPENHCL_NVME_VFIO"@) is None && env.value(legacy_name("OPENHCL_NVME_VFIO"@)) == Some("1"@) ==> o.nvme_vfio,
        env.value("OPENHCL_NVME_VFIO"@) == Some("0"@) ==> !o.nvme_vfio,
        env.value("OPENHCL_NVME_VFIO"@) is None && env.value(legacy_name("OPENHCL_NVME_VFIO"@)) is None ==> !o.nvme_vfio,
        env.value("OPENHCL_MCR_DEVICE"@) == Some("1"@) ==> o.mcr,
        env.value("OPENHCL_MCR_DEVICE"@) is None && env.value(legacy_name("OPENHCL_MCR_DEVICE"@)) == Some("1"@) ==> o.mcr,
        env.value("OPENHCL_MCR_DEVICE"@) == Some("0"@) ==> !o.mcr,
        env.value("OPENHCL_MCR_DEVICE"@) is None && env.value(legacy_name("OPENHCL_MCR_DEVICE"@)) is None ==> !o.mcr,
        env.value("OPENHCL_HIDE_ISOLATION"@) == Some("1"@) ==> o.hide_isolation,
        env.value("OPENHCL_HIDE_ISOLATION"@) is None || env.value("OPENHCL_HIDE_ISOLATION"@) == Some("0"@) ==> !o.hide_isolation,
        env.value("OPENHCL_HALT_ON_GUEST_HALT"@) == Some("1"@) ==> o.halt_on_guest_halt,
        env.value("OPENHCL_HALT_ON_GUEST_HALT"@) is None && env.value(legacy_name("OPENHCL_HALT_ON_GUEST_HALT"@)) == Some("1"@) ==> o.halt_on_guest_halt,
        env.value("OPENHCL_HALT_ON_GUEST_HALT"@) == Some("0"@) ==> !o.halt_on_guest_halt,
        env.value("OPENHCL_HALT_ON_GUEST_HALT"@) is None && env.value(legacy_name("OPENHCL_HALT_ON_GUEST_HALT"@)) is None ==> !o.halt_on_guest_halt,
        env.value("OPENHCL_NO_SIDECAR_HOTPLUG"@) == Some("1"@) ==> o.no_sidecar_hotplug,
        env.value("OPENHCL_NO_SIDECAR_HOTPLUG"@) is None && env.value(legacy_name("OPENHCL_NO_SIDECAR_HOTPLUG"@)) == Some("1"@) ==> o.no_sidecar_hotplug,
        env.value("OPENHCL_NO_SIDECAR_HOTPLUG"@) == Some("0"@) ==> !o.no_sidecar_hotplug,
        env.value("OPENHCL_NO_SIDECAR_HOTPLUG"@) is None && env.value(legacy_name("OPENHCL_NO_SIDECAR_HOTPLUG"@)) is None ==> !o.no_sidecar_hotplug,
        env.value("OPENHCL_NVME_ALWAYS_FLR"@) == Some("1"@) ==> o.nvme_always_flr,
        env.value("OPENHCL_NVME_ALWAYS_FLR"@) is None || env.value("OPENHCL_NVME_ALWAYS_FLR"@) == Some("0"@) ==> !o.nvme_always_flr,
        env.value("OPENHCL_DISABLE_PROXY_REDIRECT"@) == Some("1"@) ==> o.disable_proxy_redirect,
        env.value("OPENHCL_DISABLE_PROXY_REDIRECT"@) is None || env.value("OPENHCL_DISABLE_PROXY_REDIRECT"@) == Some("0"@) ==> !o.disable_proxy_redirect,
        env.value("OPENHCL_DISABLE_LOWER_VTL_TIMER_VIRT"@) == Some("1"@) ==> o.disable_lower_vtl_timer_virt,
        env.value("OPENHCL_DISABLE_LOWER_VTL_TIMER_VIRT"@) is None || env.value("OPENHCL_DISABLE_LOWER_VTL_TIMER_VIRT"@) == Some("0"@) ==> !o.disable_lower_vtl_timer_virt,
{
    flags_are_read("1"@);
    flags_are_read("0"@);
}

/// Each switch that may be left open has its variable, without which it is left open.
pub proof fn open_switches_have_their_variables(
    env: Environment,
    version: Option<u32>,
    args: ArgView,
    o: Options,
)
    requires
        o.given_by(env, version, args),
    ensures
        env.value("OPENHCL_DISABLE_UEFI_FRONTPAGE"@) == Some("1"@) ==> o.disable_uefi_frontpage == Some(true),
        env.value("OPENHCL_DISABLE_UEFI_FRONTPAGE"@) == Some("0"@) ==> o.disable_uefi_frontpage == Some(false),
        env.value("OPENHCL_DISABLE_UEFI_FRONTPAGE"@) is None ==> o.disable_uefi_frontpage is None,
        env.value("HCL_DEFAULT_BOOT_ALWAYS_ATTEMPT"@) == Some("1"@) ==> o.default_boot_always_attempt == Some(true),
        env.value("HCL_DEFAULT_BOOT_ALWAYS_ATTEMPT"@) == Some("0"@) ==> o.default_boot_always_attempt == Some(false),
        env.value("HCL_DEFAULT_BOOT_ALWAYS_ATTEMPT"@) is None ==> o.default_boot_always_attempt is None,
        env.value("HCL_STRICT_ENCRYPTION_POLICY"@) == Some("1"@) ==> o.strict_encryption_policy == Some(true),
        env.value("HCL_STRICT_ENCRYPTION_POLICY"@) == Some("0"@) ==> o.strict_encryption_policy == Some(false),
        env.value("HCL_STRICT_ENCRYPTION_POLICY"@) is None ==> o.strict_encryption_policy is None,
        env.value("HCL_ATTEMPT_AK_CERT_CALLBACK"@) == Some("1"@) ==> o.attempt_ak_cert_callback == Some(true),
        env.value("HCL_ATTEMPT_AK_CERT_CALLBACK"@) == Some("0"@) ==> o.attempt_ak_cert_callback == Some(false),
        env.value("HCL_ATTEMPT_AK_CERT_CALLBACK"@) is None ==> o.attempt_ak_cert_callback is None,
        env.value("OPENHCL_ENABLE_VPCI_RELAY"@) == Some("1"@) ==> o.enable_vpci_relay == Some(true),
        env.value("OPENHCL_ENABLE_VPCI_RELAY"@) == Some("0"@) ==> o.enable_vpci_relay == Some(false),
        env.value("OPENHCL_ENABLE_VPCI_RELAY"@) is None ==> o.enable_vpci_relay is None,
{
    flags_are_read("1"@);
}

/// Each text has its variable, and is taken as it is.
pub proof fn texts_have_their_variables(
    env: Environment,
    version: Option<u32>,
    args: ArgView,
    o: Options,
)
    requires
        o.given_by(env, version, args),
    ensures
        env.value("OPENHCL_CMDLINE_APPEND"@) is Some ==> text_of(o.cmdline_append) == env.value("OPENHCL_CMDLINE_APPEND"@),
        env.value("OPENHCL_CMDLINE_APPEND"@) is None ==> text_of(o.cmdline_append) == env.value(legacy_name("OPENHCL_CMDLINE_APPEND"@)),
        env.value("OPENHCL_FORCE_LOAD_VTL0_IMAGE"@) is Some ==> text_of(o.force_load_vtl0_image) == env.value("OPENHCL_FORCE_LOAD_VTL0_IMAGE"@),
        env.value("OPENHCL_FORCE_LOAD_VTL0_IMAGE"@) is None ==> text_of(o.force_load_vtl0_image) == env.value(legacy_name("OPENHCL_FORCE_LOAD_VTL0_IMAGE"@)),
{
}

/// Each number has its variable, whose value is read in decimal, and a default.
pub proof fn numbers_have_their_variables(
    env: Environment,
    version: Option<u32>,
    args: ArgView,
    o: Options,
    x: nat,
)
    requires
        o.given_by(env, version, args),
    ensures
        x <= u64::MAX && env.value("OPENHCL_VMBUS_CHANNEL_UNSTICK_DELAY_MS"@) == Some(crate::text::decimal(x)) ==> o.vmbus_channel_unstick_delay_ms == x,
        x <= u64::MAX && env.value("OPENHCL_VMBUS_CHANNEL_UNSTICK_DELAY_MS"@) is None && env.value(legacy_name("OPENHCL_VMBUS_CHANNEL_UNSTICK_DELAY_MS"@)) == Some(crate::text::decimal(x)) ==> o.vmbus_channel_unstick_delay_ms == x,
        env.value("OPENHCL_VMBUS_CHANNEL_UNSTICK_DELAY_MS"@) is None && env.value(legacy_name("OPENHCL_VMBUS_CHANNEL_UNSTICK_DELAY_MS"@)) is None ==> o.vmbus_channel_unstick_delay_ms == 100,
        x <= u32::MAX && env.value("OPENHCL_GDBSTUB_PORT"@) == Some(crate::text::decimal(x)) ==> o.gdbstub_port == x,
        x <= u32::MAX && env.value("OPENHCL_GDBSTUB_PORT"@) is None && env.value(legacy_name("OPENHCL_GDBSTUB_PORT"@)) == Some(crate::text::decimal(x)) ==> o.gdbstub_port == x,
        env.value("OPENHCL_GDBSTUB_PORT"@) is None && env.value(legacy_name("OPENHCL_GDBSTUB_PORT"@)) is None ==> o.gdbstub_port == 4,
        x <= u64::MAX && env.value("OPENHCL_CONFIG_TIMEOUT_IN_SECONDS"@) == Some(crate::text::decimal(x)) ==> o.config_timeout_in_seconds == x,
        x <= u64::MAX && env.value("OPENHCL_CONFIG_TIMEOUT_IN_SECONDS"@) is None && env.value(legacy_name("OPENHCL_CONFIG_TIMEOUT_IN_SECONDS"@)) == Some(crate::text::decimal(x)) ==> o.config_timeout_in_seconds == x,
        env.value("OPENHCL_CONFIG_TIMEOUT_IN_SECONDS"@) is None && env.value(legacy_name("OPENHCL_CONFIG_TIMEOUT_IN_SECONDS"@)) is None ==> o.config_timeout_in_seconds == 5,
        x <= u64::MAX && env.value("OPENHCL_SERVICING_TIMEOUT_DUMP_COLLECTION_IN_MS"@) == Some(crate::text::decimal(x)) ==> o.servicing_timeout_dump_collection_in_ms == x,
        env.value("OPENHCL_SERVICING_TIMEOUT_DUMP_COLLECTION_IN_MS"@) is None ==> o.servicing_timeout_dump_collection_in_ms == 500,
        x <= u64::MAX && env.value("OPENHCL_FRAMEBUFFER_GPA_BASE"@) == Some(
            crate::text::decimal(x),
        ) ==> o.framebuffer_gpa_base == Some(x as u64),
        env.value("OPENHCL_FRAMEBUFFER_GPA_BASE"@) is None && env.value(
            legacy_name("OPENHCL_FRAMEBUFFER_GPA_BASE"@),
        ) is None ==> o.framebuffer_gpa_base is None,
{
    if x <= u64::MAX {
        crate::text::decimal_is_read_back(x, u64::MAX as nat);
    }
}

/// The arguments win over the variables: what they give is what counts. The VNC port is 3 if
/// neither says otherwise.
pub proof fn arguments_win(env: Environment, version: Option<u32>, args: ArgView, o: Options)
    requires
        o.given_by(env, version, args),
    ensures
        o.wait_for_start == args.wait_for_start,
        o.reformat_vmgs == args.reformat_vmgs,
        text_of(o.pid) == args.pid,
        args.vnc_port matches Some(port) ==> o.vnc_port == port,
        args.vnc_port is None ==> o.vnc_port == 3,
        env.legacy_value("OPENHCL_VMBUS_MAX_VERSION"@) is None ==> o.vmbus_max_version is None,
        env.legacy_value("OPENHCL_VMBUS_MAX_VERSION"@) is Some ==> o.vmbus_max_version == version,
        env.value("OPENHCL_VMBUS_ENABLE_MNF"@) == Some("1"@) ==> o.vmbus_enable_mnf == Some(true),
        env.value("OPENHCL_VMBUS_ENABLE_MNF"@) == Some("0"@) ==> o.vmbus_enable_mnf == Some(false),
        env.legacy_value("OPENHCL_VMBUS_ENABLE_MNF"@) is None ==> o.vmbus_enable_mnf is None,
{
    flags_are_read("1"@);
    flags_are_read("0"@);
}

/// What the arguments can change comes from four variables first.
pub proof fn variables_come_before_arguments(env: Environment, x: nat)
    ensures
        ({
            let a = env_args(env);
            &&& env.value("OPENHCL_WAIT_FOR_START"@) == Some("1"@) ==> a.wait_for_start
            &&& env.legacy_value("OPENHCL_WAIT_FOR_START"@) is None ==> !a.wait_for_start
            &&& env.value("OPENHCL_REFORMAT_VMGS"@) == Some("1"@) ==> a.reformat_vmgs
            &&& env.legacy_value("OPENHCL_REFORMAT_VMGS"@) is None ==> !a.reformat_vmgs
            &&& env.value("OPENHCL_PID_FILE_PATH"@) is Some ==> a.pid == env.value(
                "OPENHCL_PID_FILE_PATH"@,
            )
            &&& env.legacy_value("OPENHCL_PID_FILE_PATH"@) is None ==> a.pid is None
            &&& x <= u32::MAX && env.value("OPENHCL_VNC_PORT"@) == Some(crate::text::decimal(x))
                ==> a.vnc_port == Some(x as u32)
            &&& env.legacy_value("OPENHCL_VNC_PORT"@) is None ==> a.vnc_port is None
        }),
{
    flags_are_read("1"@);
    if x <= u32::MAX {
        crate::text::decimal_is_read_back(x, u64::MAX as nat);
    }
}

/// A variable that has to be a number and is not makes the options invalid, and so does a vmbus
/// version that is none. Nothing else does.
pub proof fn bad_variables_are_told(env: Environment, version: Option<u32>)
    ensures
        ({
            let bad = |name: Seq<char>| bad_number(env.legacy_value(name));
            let dump = "OPENHCL_SERVICING_TIMEOUT_DUMP_COLLECTION_IN_MS"@;
            let no_version = env.legacy_value("OPENHCL_VMBUS_MAX_VERSION"@) is Some && version is None;
            let e = env_error(env, version);
            &&& e is Some <==> no_version || bad("OPENHCL_VMBUS_CHANNEL_UNSTICK_DELAY_MS"@) || bad(
                "OPENHCL_VNC_PORT"@,
            ) || bad("OPENHCL_FRAMEBUFFER_GPA_BASE"@) || bad("OPENHCL_GDBSTUB_PORT"@) || bad(
                "OPENHCL_CONFIG_TIMEOUT_IN_SECONDS"@,
            ) || bad_number(env.value(dump))
            &&& no_version ==> e == Some(ErrorView::VmbusMaxVersion)
            &&& e matches Some(ErrorView::InvalidNumber(name)) ==> bad(name) || (name == dump
                && bad_number(env.value(dump)))
        }),
{
}

/// The place of the first equals sign: there is none before it.
pub proof fn first_equals_is_first(s: Seq<char>, i: int)
    requires
        0 <= i <= s.len(),
    ensures
        i <= first_equals(s, i) <= s.len(),
        first_equals(s, i) < s.len() ==> s[first_equals(s, i)] == '=',
        forall|k: int| i <= k < first_equals(s, i) ==> s[k] != '=',
    decreases s.len() - i,
{
    if i < s.len() {
        first_equals_is_first(s, i + 1);
    }
}

/// A value is given behind an equals sign or as the next argument, with the same effect. It may
/// hold equals signs itself.
pub proof fn values_are_given_either_way(value: Seq<char>, rest: Seq<Seq<char>>, st: ArgView)
    ensures
        parsed_args(seq!["--pid="@ + value] + rest, st) == parsed_args(
            rest,
            ArgView { pid: Some(value), ..st },
        ),
        parsed_args(seq!["--pid"@, value] + rest, st) == parsed_args(
            rest,
            ArgView { pid: Some(value), ..st },
        ),
        number(value, u32::MAX as nat) matches Some(n) ==> {
            &&& parsed_args(seq!["--vnc-port="@ + value] + rest, st) == parsed_args(
                rest,
                ArgView { vnc_port: Some(n as u32), ..st },
            )
            &&& parsed_args(seq!["--vnc-port"@, value] + rest, st) == parsed_args(
                rest,
                ArgView { vnc_port: Some(n as u32), ..st },
            )
        },
        number(value, u32::MAX as nat) is None ==> {
            &&& parsed_args(seq!["--vnc-port="@ + value] + rest, st) == Err::<ArgView, ErrorView>(
                ErrorView::InvalidVncPort(value),
            )
            &&& parsed_args(seq!["--vnc-port"@, value] + rest, st) == Err::<ArgView, ErrorView>(
                ErrorView::InvalidVncPort(value),
            )
        },
{
    reveal_strlit("--pid");
    reveal_strlit("--pid=");
    reveal_strlit("--vnc-port");
    reveal_strlit("--vnc-port=");
    reveal_strlit("--wait-for-start");
    reveal_strlit("--reformat-vmgs");
    reveal_strlit("--");
    assert("--pid="@ =~= "--pid"@.push('='));
    assert("--vnc-port="@ =~= "--vnc-port"@.push('='));
    lemma_value_argument("--pid"@, "--pid="@, value, rest, st);
    lemma_value_argument("--vnc-port"@, "--vnc-port="@, value, rest, st);
    assert("--vnc-port"@[2] == 'v' && "--pid"@[2] == 'p');
    assert("--wait-for-start"@[2] == 'w' && "--reformat-vmgs"@[2] == 'r');
}

proof fn lemma_value_argument(
    name: Seq<char>,
    start: Seq<char>,
    value: Seq<char>,
    rest: Seq<Seq<char>>,
    st: ArgView,
)
    requires
        name.len() > 2,
        start == name.push('='),
        "--"@.is_prefix_of(name),
        "--"@.len() == 2,
        forall|k: int| 0 <= k < name.len() ==> name[k] != '=',
        name[2] != "--wait-for-start"@[2],
        name[2] != "--reformat-vmgs"@[2],
        "--wait-for-start"@.len() > 2,
        "--reformat-vmgs"@.len() > 2,
    ensures
        parsed_args(seq![start + value] + rest, st) == match value_arg(name, value, st) {
            Ok(st) => parsed_args(rest, st),
            Err(e) => Err(e),
        },
        parsed_args(seq![name, value] + rest, st) == match value_arg(name, value, st) {
            Ok(st) => parsed_args(rest, st),
            Err(e) => Err(e),
        },
{
    let arg = start + value;
    let n = name.len() as int;
    let one = seq![arg] + rest;
    let two = seq![name, value] + rest;
    assert(one[0] == arg && two[0] == name && two[1] == value);
    assert(one.skip(1) =~= rest);
    assert(two.skip(2) =~= rest);
    assert(arg.take(n) =~= name);
    assert(arg.skip(n + 1) =~= value);
    assert(arg[n] == '=');
    assert(arg[2] == name[2]);
    first_equals_is_first(arg, 0);
    first_equals_is_first(name, 0);
    let at = first_equals(arg, 0);
    assert(at == n) by {
        if at < n {
            assert(arg[at] == name[at]);
        }
        if at > n {
            assert(arg[n] != '=');
        }
    }
    assert("--"@.is_prefix_of(arg)) by {
        assert(name.take(2) =~= "--"@);
        assert(arg.take(2) =~= name.take(2));
    }
}

/// Two arguments are switches. One that is not known is told, and so is one whose value is
/// missing.
pub proof fn switches_are_arguments(arg: Seq<char>, rest: Seq<Seq<char>>, st: ArgView)
    ensures
        parsed_args(Seq::<Seq<char>>::empty(), st) == Ok::<ArgView, ErrorView>(st),
        parsed_args(seq!["--wait-for-start"@] + rest, st) == parsed_args(
            rest,
            ArgView { wait_for_start: true, ..st },
        ),
        parsed_args(seq!["--reformat-vmgs"@] + rest, st) == parsed_args(
            rest,
            ArgView { reformat_vmgs: true, ..st },
        ),
        !"--"@.is_prefix_of(arg) ==> parsed_args(seq![arg] + rest, st) == Err::<ArgView, ErrorView>(
            ErrorView::UnrecognizedArgument(arg),
        ),
        parsed_args(seq!["--pid"@], st) == Err::<ArgView, ErrorView>(
            ErrorView::ExpectedValue("--pid"@),
        ),
        parsed_args(seq!["--vnc-port"@], st) == Err::<ArgView, ErrorView>(
            ErrorView::ExpectedValue("--vnc-port"@),
        ),
{
    reveal_strlit("--pid");
    reveal_strlit("--vnc-port");
    reveal_strlit("--wait-for-start");
    reveal_strlit("--reformat-vmgs");
    reveal_strlit("--");
    assert("--vnc-port"@[2] == 'v' && "--pid"@[2] == 'p');
    assert("--wait-for-start"@[2] == 'w' && "--reformat-vmgs"@[2] == 'r');
    first_equals_is_first("--pid"@, 0);
    first_equals_is_first("--vnc-port"@, 0);
    assert((seq!["--wait-for-start"@] + rest).skip(1) =~= rest);
    assert((seq!["--reformat-vmgs"@] + rest).skip(1) =~= rest);
    assert((seq![arg] + rest)[0] == arg);
    assert("--wait-for-start"@.take(2) =~= "--"@);
    assert("--reformat-vmgs"@.take(2) =~= "--"@);
    assert("--pid"@.take(2) =~= "--"@);
    assert("--vnc-port"@.take(2) =~= "--"@);
}

/// Scenarios are known by their names alone.
pub proof fn scenarios_are_named(s: Seq<char>)
    ensures
        TestScenarioConfig::parsed("SERVICING_SAVE_FAIL"@) == Some(TestScenarioConfig::SaveFail),
        TestScenarioConfig::parsed("SERVICING_RESTORE_STUCK"@) == Some(
            TestScenarioConfig::RestoreStuck,
        ),
        TestScenarioConfig::parsed("SERVICING_SAVE_STUCK"@) == Some(TestScenarioConfig::SaveStuck),
        TestScenarioConfig::parsed(s) is Some ==> s == "SERVICING_SAVE_FAIL"@ || s
            == "SERVICING_RESTORE_STUCK"@ || s == "SERVICING_SAVE_STUCK"@,
{
    reveal_strlit("SERVICING_SAVE_FAIL");
    reveal_strlit("SERVICING_RESTORE_STUCK");
    reveal_strlit("SERVICING_SAVE_STUCK");
    assert("SERVICING_SAVE_FAIL"@.len() == 19);
    assert("SERVICING_RESTORE_STUCK"@.len() == 23);
    assert("SERVICING_SAVE_STUCK"@.len() == 20);
}

/// Lifetimes are known by their names, or by numbers from zero on.
pub proof fn lifetimes_are_named(s: Seq<char>)
    ensures
        GuestStateLifetimeCli::parsed("DEFAULT"@) == Some(GuestStateLifetimeCli::Default),
        GuestStateLifetimeCli::parsed("0"@) == Some(GuestStateLifetimeCli::Default),
        GuestStateLifetimeCli::parsed("REPROVISION_ON_FAILURE"@) == Some(
            GuestStateLifetimeCli::ReprovisionOnFailure,
        ),
        GuestStateLifetimeCli::parsed("1"@) == Some(GuestStateLifetimeCli::ReprovisionOnFailure),
        GuestStateLifetimeCli::parsed("REPROVISION"@) == Some(GuestStateLifetimeCli::Reprovision),
        GuestStateLifetimeCli::parsed("2"@) == Some(GuestStateLifetimeCli::Reprovision),
        GuestStateLifetimeCli::parsed("EPHEMERAL"@) == Some(GuestStateLifetimeCli::Ephemeral),
        GuestStateLifetimeCli::parsed("3"@) == Some(GuestStateLifetimeCli::Ephemeral),
        GuestStateLifetimeCli::parsed(s) is Some ==> s == "DEFAULT"@ || s == "0"@ || s
            == "REPROVISION_ON_FAILURE"@ || s == "1"@ || s == "REPROVISION"@ || s == "2"@ || s
            == "EPHEMERAL"@ || s == "3"@,
{
    reveal_strlit("DEFAULT");
    reveal_strlit("REPROVISION_ON_FAILURE");
    reveal_strlit("REPROVISION");
    reveal_strlit("EPHEMERAL");
    reveal_strlit("0");
    reveal_strlit("1");
    reveal_strlit("2");
    reveal_strlit("3");
    assert("0"@[0] == '0' && "1"@[0] == '1' && "2"@[0] == '2' && "3"@[0] == '3');
    assert("0"@.len() == 1 && "1"@.len() == 1 && "2"@.len() == 1 && "3"@.len() == 1);
    assert("DEFAULT"@.len() == 7 && "REPROVISION_ON_FAILURE"@.len() == 22 && "REPROVISION"@.len()
        == 11 && "EPHEMERAL"@.len() == 9);
}

/// Policies are known by their names, or by numbers from zero on.
pub proof fn policies_are_named(s: Seq<char>)
    ensures
        GuestStateEncryptionPolicyCli::parsed("AUTO"@) == Some(GuestStateEncryptionPolicyCli::Auto),
        GuestStateEncryptionPolicyCli::parsed("0"@) == Some(GuestStateEncryptionPolicyCli::Auto),
        GuestStateEncryptionPolicyCli::parsed("NONE"@) == Some(
            GuestStateEncryptionPolicyCli::Unencrypted,
        ),
        GuestStateEncryptionPolicyCli::parsed("1"@) == Some(
            GuestStateEncryptionPolicyCli::Unencrypted,
        ),
        GuestStateEncryptionPolicyCli::parsed("GSP_BY_ID"@) == Some(
            GuestStateEncryptionPolicyCli::GspById,
        ),
        GuestStateEncryptionPolicyCli::parsed("2"@) == Some(GuestStateEncryptionPolicyCli::GspById),
        GuestStateEncryptionPolicyCli::parsed("GSP_KEY"@) == Some(
            GuestStateEncryptionPolicyCli::GspKey,
        ),
        GuestStateEncryptionPolicyCli::parsed("3"@) == Some(GuestStateEncryptionPolicyCli::GspKey),
        GuestStateEncryptionPolicyCli::parsed(s) is Some ==> s == "AUTO"@ || s == "0"@ || s
            == "NONE"@ || s == "1"@ || s == "GSP_BY_ID"@ || s == "2"@ || s == "GSP_KEY"@ || s
            == "3"@,
{
    reveal_strlit("AUTO");
    reveal_strlit("NONE");
    reveal_strlit("GSP_BY_ID");
    reveal_strlit("GSP_KEY");
    reveal_strlit("0");
    reveal_strlit("1");
    reveal_strlit("2");
    reveal_strlit("3");
    assert("0"@[0] == '0' && "1"@[0] == '1' && "2"@[0] == '2' && "3"@[0] == '3');
    assert("0"@.len() == 1 && "1"@.len() == 1 && "2"@.len() == 1 && "3"@.len() == 1);
    assert("AUTO"@.len() == 4 && "NONE"@.len() == 4 && "GSP_BY_ID"@.len() == 9 && "GSP_KEY"@.len()
        == 7);
    assert("AUTO"@[0] == 'A' && "NONE"@[0] == 'N');
}

/// A device is kept alive if the host supports it and there is a private pool, or by a plain
/// word. Behind the word that switches it off, anything may follow a comma.
pub proof fn keep_alive_is_named(s: Seq<char>)
    ensures
        KeepAliveConfig::parsed("host,privatepool"@) == Some(
            KeepAliveConfig::EnabledHostAndPrivatePoolPresent,
        ),
        KeepAliveConfig::parsed("enabled"@) == Some(
            KeepAliveConfig::EnabledHostAndPrivatePoolPresent,
        ),
        KeepAliveConfig::parsed("nohost,privatepool"@) == Some(
            KeepAliveConfig::DisabledHostAndPrivatePoolPresent,
        ),
        KeepAliveConfig::parsed("nohost,noprivatepool"@) == Some(KeepAliveConfig::Disabled),
        KeepAliveConfig::parsed("disabled"@) == Some(KeepAliveConfig::Disabled),
        KeepAliveConfig::parsed("disabled,"@ + s) == Some(KeepAliveConfig::Disabled),
        KeepAliveConfig::parsed(s) is Some ==> s == "host,privatepool"@ || s == "enabled"@ || s
            == "nohost,privatepool"@ || s == "nohost,noprivatepool"@ || s == "disabled"@
            || "disabled,"@.is_prefix_of(s),
        KeepAliveConfig::parsed(s) == Some(KeepAliveConfig::EnabledHostAndPrivatePoolPresent)
            <==> s == "host,privatepool"@ || s == "enabled"@,
{
    reveal_strlit("enabled");
    reveal_strlit("nohost,privatepool");
    reveal_strlit("disabled");
    reveal_strlit("host,privatepool");
    reveal_strlit("nohost,noprivatepool");
    reveal_strlit("disabled,");
    let t = "disabled,"@ + s;
    assert(t.take(9) =~= "disabled,"@);
    assert(t[0] == 'd');
    assert(t[8] == ',');
    assert("host,privatepool"@[0] == 'h' && "enabled"@[0] == 'e' && "nohost,privatepool"@[0] == 'n'
        && "nohost,noprivatepool"@[0] == 'n' && "disabled"@[0] == 'd');
    assert("nohost,privatepool"@.len() == 18 && "nohost,noprivatepool"@.len() == 20);
    assert("disabled"@.len() == 8 && "disabled,"@.len() == 9);
}

/// Devices are not kept alive unless their variable says so in a known way; the variable of one
/// kind of device does not touch the other.
pub proof fn keep_alive_has_its_variables(
    env: Environment,
    version: Option<u32>,
    args: ArgView,
    o: Options,
)
    requires
        o.given_by(env, version, args),
    ensures
        env.value("OPENHCL_NVME_KEEP_ALIVE"@) is None ==> o.nvme_keep_alive
            == KeepAliveConfig::Disabled,
        env.value("OPENHCL_MANA_KEEP_ALIVE"@) is None ==> o.mana_keep_alive
            == KeepAliveConfig::Disabled,
        env.value("OPENHCL_NVME_KEEP_ALIVE"@) matches Some(v) ==> o.nvme_keep_alive
            == match KeepAliveConfig::parsed(lowercase(v)) {
            Some(c) => c,
            None => KeepAliveConfig::Disabled,
        },
        env.value("OPENHCL_MANA_KEEP_ALIVE"@) matches Some(v) ==> o.mana_keep_alive
            == match KeepAliveConfig::parsed(lowercase(v)) {
            Some(c) => c,
            None => KeepAliveConfig::Disabled,
        },
        env.value("OPENHCL_TEST_CONFIG"@) is None ==> o.test_configuration is None,
        env.value("OPENHCL_TEST_CONFIG"@) == Some("SERVICING_SAVE_FAIL"@) ==> o.test_configuration
            == Some(TestScenarioConfig::SaveFail),
        env.value("HCL_GUEST_STATE_LIFETIME"@) is None ==> o.guest_state_lifetime is None,
        env.value("HCL_GUEST_STATE_LIFETIME"@) == Some("EPHEMERAL"@) ==> o.guest_state_lifetime
            == Some(GuestStateLifetimeCli::Ephemeral),
        env.value("HCL_GUEST_STATE_ENCRYPTION_POLICY"@) is None
            ==> o.guest_state_encryption_policy is None,
        env.value("HCL_GUEST_STATE_ENCRYPTION_POLICY"@) == Some("GSP_KEY"@)
            ==> o.guest_state_encryption_policy == Some(GuestStateEncryptionPolicyCli::GspKey),
{
    scenarios_are_named("SERVICING_SAVE_FAIL"@);
    lifetimes_are_named("EPHEMERAL"@);
    policies_are_named("GSP_KEY"@);
}

} // verus!
