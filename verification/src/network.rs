//! Host networking: the commands that create and remove a VM's TAP device,
//! the commands that route VM egress through the host, and the rule that
//! decides which command failures abort the setup.

use crate::text::{join2, lines, lines_of, option_text, strings_of, texts, words, words_of};
use vstd::prelude::*;

verus! {

/// One command of the host network setup or teardown.
#[derive(Clone, Copy, Debug, PartialEq, Eq, Structural)]
pub enum NetworkStep {
    /// Delete a TAP device left over from an earlier run.
    DeleteStaleTap,
    /// Create the TAP device.
    CreateTap,
    /// Assign the host address to the TAP device.
    AssignAddress,
    /// Bring the TAP device up.
    BringUp,
    /// Switch on IPv4 forwarding.
    EnableForwarding,
    /// Set the policy of the FORWARD chain to ACCEPT.
    AcceptForward,
    /// List the default route.
    QueryDefaultRoute,
    /// Delete a MASQUERADE rule left over from an earlier run.
    DeleteStaleMasquerade,
    /// Install the MASQUERADE rule.
    AddMasquerade,
    /// Remove the MASQUERADE rule at teardown.
    RemoveMasquerade,
    /// Remove the TAP device at teardown.
    RemoveTap,
}

/// A command to run on the host, with the step it carries out.
#[derive(Clone, Debug, PartialEq, Eq)]
pub struct HostCommand {
    pub step: NetworkStep,
    pub argv: Vec<String>,
}

/// How running a command ended.
#[derive(Clone, Copy, Debug, PartialEq, Eq, Structural)]
pub enum RunOutcome {
    /// The command ran and exited with success.
    Succeeded,
    /// The command ran and exited with a failure status.
    Failed,
    /// The command could not be started.
    NotStarted,
}

/// Why the host network setup was aborted.
#[derive(Clone, Copy, Debug, PartialEq, Eq, Structural)]
pub enum NetworkSetupError {
    /// The command of this step exited with a failure status.
    CommandFailed(NetworkStep),
    /// The command of this step could not be started.
    CommandNotStarted(NetworkStep),
    /// The routing table names no interface for the default route.
    NoDefaultInterface,
}

/// Steps whose failure status aborts the setup.
pub open spec fn status_matters(step: NetworkStep) -> bool {
    step == NetworkStep::CreateTap || step == NetworkStep::AssignAddress || step
        == NetworkStep::BringUp || step == NetworkStep::EnableForwarding || step
        == NetworkStep::AddMasquerade || step == NetworkStep::RemoveTap
}

/// Steps that are attempted and whose every failure is ignored.
pub open spec fn best_effort(step: NetworkStep) -> bool {
    step == NetworkStep::DeleteStaleTap || step == NetworkStep::DeleteStaleMasquerade
}

/// The verdict on one command: `Ok` when the setup goes on.
pub open spec fn verdict(step: NetworkStep, outcome: RunOutcome) -> Result<
    (),
    NetworkSetupError,
> {
    match outcome {
        RunOutcome::Succeeded => Ok(()),
        RunOutcome::Failed => if status_matters(step) {
            Err(NetworkSetupError::CommandFailed(step))
        } else {
            Ok(())
        },
        RunOutcome::NotStarted => if best_effort(step) {
            Ok(())
        } else {
            Err(NetworkSetupError::CommandNotStarted(step))
        },
    }
}

/// Decides whether the setup goes on after `step` ended with `outcome`.
/// Failures are reported, never retried.
pub fn judge(step: NetworkStep, outcome: RunOutcome) -> (r: Result<(), NetworkSetupError>)
    ensures
        r == verdict(step, outcome),
{
    match outcome {
        RunOutcome::Succeeded => Ok(()),
        RunOutcome::Failed => match step {
            NetworkStep::CreateTap
            | NetworkStep::AssignAddress
            | NetworkStep::BringUp
            | NetworkStep::EnableForwarding
            | NetworkStep::AddMasquerade
            | NetworkStep::RemoveTap => Err(NetworkSetupError::CommandFailed(step)),
            _ => Ok(()),
        },
        RunOutcome::NotStarted => match step {
            NetworkStep::DeleteStaleTap | NetworkStep::DeleteStaleMasquerade => Ok(()),
            _ => Err(NetworkSetupError::CommandNotStarted(step)),
        },
    }
}

/// `sudo ip link del <name>`.
pub open spec fn delete_link_argv(name: Seq<char>) -> Seq<Seq<char>> {
    seq!["sudo"@, "ip"@, "link"@, "del"@, name]
}

/// `sudo ip tuntap add dev <name> mode tap`.
pub open spec fn create_tap_argv(name: Seq<char>) -> Seq<Seq<char>> {
    seq!["sudo"@, "ip"@, "tuntap"@, "add"@, "dev"@, name, "mode"@, "tap"@]
}

/// `sudo ip addr add <address> dev <name>`.
pub open spec fn assign_address_argv(name: Seq<char>, address: Seq<char>) -> Seq<Seq<char>> {
    seq!["sudo"@, "ip"@, "addr"@, "add"@, address, "dev"@, name]
}

/// `sudo ip link set dev <name> up`.
pub open spec fn bring_up_argv(name: Seq<char>) -> Seq<Seq<char>> {
    seq!["sudo"@, "ip"@, "link"@, "set"@, "dev"@, name, "up"@]
}

/// `sudo sh -c "echo 1 > /proc/sys/net/ipv4/ip_forward"`.
pub open spec fn enable_forwarding_argv() -> Seq<Seq<char>> {
    seq!["sudo"@, "sh"@, "-c"@, "echo 1 > /proc/sys/net/ipv4/ip_forward"@]
}

/// `sudo iptables -P FORWARD ACCEPT`.
pub open spec fn accept_forward_argv() -> Seq<Seq<char>> {
    seq!["sudo"@, "iptables"@, "-P"@, "FORWARD"@, "ACCEPT"@]
}

/// `ip route list default`.
pub open spec fn query_route_argv() -> Seq<Seq<char>> {
    seq!["ip"@, "route"@, "list"@, "default"@]
}

/// `sudo iptables -t nat <action> POSTROUTING -o <iface> -j MASQUERADE`,
/// where the action is `-A` to append the rule and `-D` to delete it.
pub open spec fn masquerade_argv(action: Seq<char>, iface: Seq<char>) -> Seq<Seq<char>> {
    seq![
        "sudo"@,
        "iptables"@,
        "-t"@,
        "nat"@,
        action,
        "POSTROUTING"@,
        "-o"@,
        iface,
        "-j"@,
        "MASQUERADE"@,
    ]
}

fn delete_link(step: NetworkStep, name: &str) -> (c: HostCommand)
    ensures
        is_command(c, step, delete_link_argv(name@)),
{
    let argv = strings_of(&["sudo", "ip", "link", "del", name]);
    assert(texts(argv@) =~= delete_link_argv(name@));
    HostCommand { step, argv }
}

fn masquerade(step: NetworkStep, action: &str, iface: &str) -> (c: HostCommand)
    ensures
        is_command(c, step, masquerade_argv(action@, iface@)),
{
    let argv = strings_of(
        &["sudo", "iptables", "-t", "nat", action, "POSTROUTING", "-o", iface, "-j", "MASQUERADE"],
    );
    assert(texts(argv@) =~= masquerade_argv(action@, iface@));
    HostCommand { step, argv }
}

/// Whether `c` carries out `step` with the command line `argv`.
pub open spec fn is_command(c: HostCommand, step: NetworkStep, argv: Seq<Seq<char>>) -> bool {
    c.step == step && texts(c.argv@) == argv
}

/// Whether `plan` sets up the TAP device `tap_name` with the address
/// `tap_ip` followed by `mask`.
pub open spec fn is_tap_setup(
    plan: Seq<HostCommand>,
    tap_name: Seq<char>,
    tap_ip: Seq<char>,
    mask: Seq<char>,
) -> bool {
    &&& plan.len() == 4
    &&& is_command(plan[0], NetworkStep::DeleteStaleTap, delete_link_argv(tap_name))
    &&& is_command(plan[1], NetworkStep::CreateTap, create_tap_argv(tap_name))
    &&& is_command(plan[2], NetworkStep::AssignAddress, assign_address_argv(tap_name, tap_ip + mask))
    &&& is_command(plan[3], NetworkStep::BringUp, bring_up_argv(tap_name))
}

/// The commands that give a VM its TAP device, in the order in which they
/// run: delete any device of that name, create the device in tap mode,
/// assign it the address `tap_ip` followed by `mask`, and bring it up.
pub fn setup_tap_device(tap_name: &str, tap_ip: &str, mask: &str) -> (plan: Vec<HostCommand>)
    ensures
        is_tap_setup(plan@, tap_name@, tap_ip@, mask@),
{
    let mut plan: Vec<HostCommand> = Vec::new();
    plan.push(delete_link(NetworkStep::DeleteStaleTap, tap_name));

    let create = strings_of(&["sudo", "ip", "tuntap", "add", "dev", tap_name, "mode", "tap"]);
    assert(texts(create@) =~= create_tap_argv(tap_name@));
    plan.push(HostCommand { step: NetworkStep::CreateTap, argv: create });

    let address = join2(tap_ip, mask);
    let assign = strings_of(&["sudo", "ip", "addr", "add", address.as_str(), "dev", tap_name]);
    assert(texts(assign@) =~= assign_address_argv(tap_name@, tap_ip@ + mask@));
    plan.push(HostCommand { step: NetworkStep::AssignAddress, argv: assign });

    let up = strings_of(&["sudo", "ip", "link", "set", "dev", tap_name, "up"]);
    assert(texts(up@) =~= bring_up_argv(tap_name@));
    plan.push(HostCommand { step: NetworkStep::BringUp, argv: up });
    plan
}

/// The command that removes a VM's TAP device. Its failure aborts: a
/// device that is absent at teardown shows that the host has drifted.
pub fn cleanup_tap_device(tap_name: &str) -> (c: HostCommand)
    ensures
        is_command(c, NetworkStep::RemoveTap, delete_link_argv(tap_name@)),
{
    delete_link(NetworkStep::RemoveTap, tap_name)
}

/// The first commands of the forwarding setup, in order: switch on IPv4
/// forwarding, accept forwarded packets, list the default route. What
/// the last one prints goes to [`default_interface`].
pub fn setup_forwarding() -> (plan: Vec<HostCommand>)
    ensures
        plan@.len() == 3,
        is_command(plan@[0], NetworkStep::EnableForwarding, enable_forwarding_argv()),
        is_command(plan@[1], NetworkStep::AcceptForward, accept_forward_argv()),
        is_command(plan@[2], NetworkStep::QueryDefaultRoute, query_route_argv()),
{
    let mut plan: Vec<HostCommand> = Vec::new();
    let enable = strings_of(&["sudo", "sh", "-c", "echo 1 > /proc/sys/net/ipv4/ip_forward"]);
    assert(texts(enable@) =~= enable_forwarding_argv());
    plan.push(HostCommand { step: NetworkStep::EnableForwarding, argv: enable });

    let accept = strings_of(&["sudo", "iptables", "-P", "FORWARD", "ACCEPT"]);
    assert(texts(accept@) =~= accept_forward_argv());
    plan.push(HostCommand { step: NetworkStep::AcceptForward, argv: accept });

    let query = strings_of(&["ip", "route", "list", "default"]);
    assert(texts(query@) =~= query_route_argv());
    plan.push(HostCommand { step: NetworkStep::QueryDefaultRoute, argv: query });
    plan
}

/// The commands that leave exactly one MASQUERADE rule for `iface`:
/// delete the rule if an earlier run left one, then append it.
pub fn masquerade_rules(iface: &str) -> (plan: Vec<HostCommand>)
    ensures
        plan@.len() == 2,
        is_command(plan@[0], NetworkStep::DeleteStaleMasquerade, masquerade_argv("-D"@, iface@)),
        is_command(plan@[1], NetworkStep::AddMasquerade, masquerade_argv("-A"@, iface@)),
{
    let mut plan: Vec<HostCommand> = Vec::new();
    plan.push(masquerade(NetworkStep::DeleteStaleMasquerade, "-D", iface));
    plan.push(masquerade(NetworkStep::AddMasquerade, "-A", iface));
    plan
}

/// The command that removes the MASQUERADE rule for `iface` at teardown.
/// The forwarding switch and the FORWARD policy are left as they are.
pub fn cleanup_forwarding(iface: &str) -> (c: HostCommand)
    ensures
        is_command(c, NetworkStep::RemoveMasquerade, masquerade_argv("-D"@, iface@)),
{
    masquerade(NetworkStep::RemoveMasquerade, "-D", iface)
}

/// The word that follows the first `dev` in `ws` that a word follows.
pub open spec fn device_of(ws: Seq<Seq<char>>) -> Option<Seq<char>>
    decreases ws.len(),
{
    if ws.len() < 2 {
        None
    } else if ws[0] == "dev"@ {
        Some(ws[1])
    } else {
        device_of(ws.drop_first())
    }
}

/// Whether the words are those of a default route.
pub open spec fn is_default_route(ws: Seq<Seq<char>>) -> bool {
    ws.len() > 0 && ws[0] == "default"@
}

/// The device of the first default route among the lines `ls`.
pub open spec fn default_interface_in(ls: Seq<Seq<char>>) -> Option<Seq<char>>
    decreases ls.len(),
{
    if ls.len() == 0 {
        None
    } else if is_default_route(words(ls[0])) {
        device_of(words(ls[0]).drop_first())
    } else {
        default_interface_in(ls.drop_first())
    }
}

/// The interface of the default route in a routing table as `ip route`
/// prints it: in the first line whose first word is `default`, the word
/// that follows `dev`.
pub open spec fn default_interface_of(table: Seq<char>) -> Option<Seq<char>> {
    default_interface_in(lines(table))
}

fn device_after(ws: &Vec<String>) -> (r: Option<String>)
    requires
        ws@.len() > 0,
    ensures
        option_text(r) == device_of(texts(ws@).drop_first()),
{
    let dev = "dev".to_owned();
    let mut i: usize = 1;
    assert(texts(ws@).drop_first() =~= texts(ws@).skip(1));
    while i < ws.len() - 1
        invariant
            1 <= i <= ws.len(),
            dev@ == "dev"@,
            device_of(texts(ws@).skip(i as int)) == device_of(texts(ws@).drop_first()),
        decreases ws.len() - i,
    {
        assert(texts(ws@).skip(i as int).drop_first() =~= texts(ws@).skip(i + 1));
        if ws[i] == dev {
            return Some(ws[i + 1].clone());
        }
        i += 1;
    }
    None
}

/// Finds the interface of the default route in the output of
/// `ip route`. `None` when no line starts with `default` or the first
/// such line names no device.
pub fn default_interface(table: &str) -> (r: Option<String>)
    ensures
        option_text(r) == default_interface_of(table@),
{
    let ls = lines_of(table);
    let default = "default".to_owned();
    let mut i: usize = 0;
    assert(texts(ls@).skip(0) =~= texts(ls@));
    while i < ls.len()
        invariant
            i <= ls.len(),
            default@ == "default"@,
            texts(ls@) == lines(table@),
            default_interface_in(texts(ls@).skip(i as int)) == default_interface_of(table@),
        decreases ls.len() - i,
    {
        assert(texts(ls@).skip(i as int).drop_first() =~= texts(ls@).skip(i + 1));
        let ws = words_of(ls[i].as_str());
        if ws.len() > 0 && ws[0] == default {
            return device_after(&ws);
        }
        i += 1;
    }
    None
}

/// The interface that the rules are installed for, or the reason to abort.
pub fn require_default_interface(table: &str) -> (r: Result<String, NetworkSetupError>)
    ensures
        match r {
            Ok(iface) => default_interface_of(table@) == Some(iface@),
            Err(e) => e == NetworkSetupError::NoDefaultInterface && default_interface_of(table@)
                is None,
        },
{
    match default_interface(table) {
        Some(iface) => Ok(iface),
        None => Err(NetworkSetupError::NoDefaultInterface),
    }
}

} // verus!
