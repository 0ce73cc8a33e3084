//! Form state for creating and editing tunnels, validation of a submitted
//! form into a tunnel record, and the tray's textual presentation of a
//! tunnel's status. All presentation proper (widgets, dialogs) lives
//! outside the library.

use vstd::prelude::*;
use vstd::string::*;
use crate::command::{is_blank, spec_is_blank};
use crate::tunnels::{StatusView, Tunnel, TunnelStatus};

verus! {

/// Whether a tunnel form creates a new record or edits an existing one.
#[derive(Debug, Clone)]
pub enum FormMode {
    Create,
    Edit { tunnel_id: String },
}

/// One window's state: the about box, or a tunnel form with its fields
/// and its latest validation and probe messages.
#[derive(Debug, Clone)]
pub enum WindowType {
    About,
    TunnelForm {
        mode: FormMode,
        name: String,
        local_host: String,
        local_port: String,
        remote_host: String,
        remote_port: String,
        ssh_user: String,
        ssh_host: String,
        ssh_port: String,
        private_key: String,
        error_message: Option<String>,
        test_message: Option<String>,
    },
}

impl WindowType {
    /// A blank creation form, with the customary defaults for the local
    /// host and the SSH port.
    pub fn new_tunnel_form_create() -> (r: WindowType)
        ensures
            (r matches WindowType::TunnelForm {
                mode,
                name,
                local_host,
                local_port,
                remote_host,
                remote_port,
                ssh_user,
                ssh_host,
                ssh_port,
                private_key,
                error_message,
                test_message,
            } && mode is Create && name@ == Seq::<char>::empty() && local_host@ == "127.0.0.1"@
                && local_port@ == Seq::<char>::empty() && remote_host@ == "127.0.0.1"@
                && remote_port@ == Seq::<char>::empty() && ssh_user@ == Seq::<char>::empty()
                && ssh_host@ == Seq::<char>::empty() && ssh_port@ == "22"@ && private_key@
                == Seq::<char>::empty() && error_message is None && test_message is None),
    {
        WindowType::TunnelForm {
            mode: FormMode::Create,
            name: String::new(),
            local_host: String::from_str("127.0.0.1"),
            local_port: String::new(),
            remote_host: String::from_str("127.0.0.1"),
            remote_port: String::new(),
            ssh_user: String::new(),
            ssh_host: String::new(),
            ssh_port: String::from_str("22"),
            private_key: String::new(),
            error_message: None,
            test_message: None,
        }
    }

    /// An edit form preloaded with an existing tunnel's fields; the form
    /// remembers the tunnel's id so that saving replaces that record.
    pub fn new_tunnel_form_edit(tunnel: &Tunnel) -> (r: WindowType)
        ensures
            (r matches WindowType::TunnelForm {
                mode,
                name,
                local_host,
                local_port,
                remote_host,
                remote_port,
                ssh_user,
                ssh_host,
                ssh_port,
                private_key,
                error_message,
                test_message,
            } && (mode matches FormMode::Edit { tunnel_id } && tunnel_id@ == tunnel@.id) && name@
                == tunnel@.name && local_host@ == tunnel@.local_host && local_port@
                == tunnel@.local_port && remote_host@ == tunnel@.remote_host && remote_port@
                == tunnel@.remote_port && ssh_user@ == tunnel@.ssh_user && ssh_host@
                == tunnel@.ssh_host && ssh_port@ == tunnel@.ssh_port && private_key@
                == tunnel@.private_key && error_message is None && test_message is None),
    {
        WindowType::TunnelForm {
            mode: FormMode::Edit { tunnel_id: tunnel.id.clone() },
            name: tunnel.name.clone(),
            local_host: tunnel.local_host.clone(),
            local_port: tunnel.local_port.clone(),
            remote_host: tunnel.remote_host.clone(),
            remote_port: tunnel.remote_port.clone(),
            ssh_user: tunnel.ssh_user.clone(),
            ssh_host: tunnel.ssh_host.clone(),
            ssh_port: tunnel.ssh_port.clone(),
            private_key: tunnel.private_key.clone(),
            error_message: None,
            test_message: None,
        }
    }
}

/// Identifies which field of the tunnel form was edited, with its new text.
#[derive(Debug, Clone)]
pub enum TunnelFormField {
    Name(String),
    LocalHost(String),
    LocalPort(String),
    RemoteHost(String),
    RemotePort(String),
    SshUser(String),
    SshHost(String),
    SshPort(String),
    PrivateKey(String),
}

/// The window state after one form edit: on a tunnel form the named field
/// carries the new text and every other part stands; any other window is
/// untouched.
pub open spec fn spec_apply_field(w: WindowType, field: TunnelFormField) -> WindowType {
    match w {
        WindowType::About => WindowType::About,
        WindowType::TunnelForm {
            mode,
            name,
            local_host,
            local_port,
            remote_host,
            remote_port,
            ssh_user,
            ssh_host,
            ssh_port,
            private_key,
            error_message,
            test_message,
        } => {
            let name2 = match field {
                TunnelFormField::Name(v) => v,
                _ => name,
            };
            let local_host2 = match field {
                TunnelFormField::LocalHost(v) => v,
                _ => local_host,
            };
            let local_port2 = match field {
                TunnelFormField::LocalPort(v) => v,
                _ => local_port,
            };
            let remote_host2 = match field {
                TunnelFormField::RemoteHost(v) => v,
                _ => remote_host,
            };
            let remote_port2 = match field {
                TunnelFormField::RemotePort(v) => v,
                _ => remote_port,
            };
            let ssh_user2 = match field {
                TunnelFormField::SshUser(v) => v,
                _ => ssh_user,
            };
            let ssh_host2 = match field {
                TunnelFormField::SshHost(v) => v,
                _ => ssh_host,
            };
            let ssh_port2 = match field {
                TunnelFormField::SshPort(v) => v,
                _ => ssh_port,
            };
            let private_key2 = match field {
                TunnelFormField::PrivateKey(v) => v,
                _ => private_key,
            };
            WindowType::TunnelForm {
                mode,
                name: name2,
                local_host: local_host2,
                local_port: local_port2,
                remote_host: remote_host2,
                remote_port: remote_port2,
                ssh_user: ssh_user2,
                ssh_host: ssh_host2,
                ssh_port: ssh_port2,
                private_key: private_key2,
                error_message,
                test_message,
            }
        },
    }
}

/// Apply one edited form field to a window's state.
pub fn update_tunnel_form_field(w: WindowType, field: TunnelFormField) -> (r: WindowType)
    ensures
        r == spec_apply_field(w, field),
{
    match w {
        WindowType::About => WindowType::About,
        WindowType::TunnelForm {
            mode,
            name,
            local_host,
            local_port,
            remote_host,
            remote_port,
            ssh_user,
            ssh_host,
            ssh_port,
            private_key,
            error_message,
            test_message,
        } => match field {
            TunnelFormField::Name(v) => WindowType::TunnelForm {
                mode,
                name: v,
                local_host,
                local_port,
                remote_host,
                remote_port,
                ssh_user,
                ssh_host,
                ssh_port,
                private_key,
                error_message,
                test_message,
            },
            TunnelFormField::LocalHost(v) => WindowType::TunnelForm {
                mode,
                name,
                local_host: v,
                local_port,
                remote_host,
                remote_port,
                ssh_user,
                ssh_host,
                ssh_port,
                private_key,
                error_message,
                test_message,
            },
            TunnelFormField::LocalPort(v) => WindowType::TunnelForm {
                mode,
                name,
                local_host,
                local_port: v,
                remote_host,
                remote_port,
                ssh_user,
                ssh_host,
                ssh_port,
                private_key,
                error_message,
                test_message,
            },
            TunnelFormField::RemoteHost(v) => WindowType::TunnelForm {
                mode,
                name,
                local_host,
                local_port,
                remote_host: v,
                remote_port,
                ssh_user,
                ssh_host,
                ssh_port,
                private_key,
                error_message,
                test_message,
            },
            TunnelFormField::RemotePort(v) => WindowType::TunnelForm {
                mode,
                name,
                local_host,
                local_port,
                remote_host,
                remote_port: v,
                ssh_user,
                ssh_host,
                ssh_port,
                private_key,
                error_message,
                test_message,
            },
            TunnelFormField::SshUser(v) => WindowType::TunnelForm {
                mode,
                name,
                local_host,
                local_port,
                remote_host,
                remote_port,
                ssh_user: v,
                ssh_host,
                ssh_port,
                private_key,
                error_message,
                test_message,
            },
            TunnelFormField::SshHost(v) => WindowType::TunnelForm {
                mode,
                name,
                local_host,
                local_port,
                remote_host,
                remote_port,
                ssh_user,
                ssh_host: v,
                ssh_port,
                private_key,
                error_message,
                test_message,
            },
            TunnelFormField::SshPort(v) => WindowType::TunnelForm {
                mode,
                name,
                local_host,
                local_port,
                remote_host,
                remote_port,
                ssh_user,
                ssh_host,
                ssh_port: v,
                private_key,
                error_message,
                test_message,
            },
            TunnelFormField::PrivateKey(v) => WindowType::TunnelForm {
                mode,
                name,
                local_host,
                local_port,
                remote_host,
                remote_port,
                ssh_user,
                ssh_host,
                ssh_port,
                private_key: v,
                error_message,
                test_message,
            },
        },
    }
}

/// Relies on `uuid::Uuid::new_v4` and its `Display` form: a fresh random
/// version-4 UUID, rendered in the 36-character hyphenated form.
#[verifier::external_body]
fn fresh_tunnel_id() -> (r: String)
    ensures
        r@.len() == 36,
{
    uuid::Uuid::new_v4().to_string()
}

/// Validate a submitted tunnel form and build the record. Each required
/// field is checked in fixed order and the first missing one is reported;
/// a valid form yields a record with a freshly assigned id carrying the
/// form's fields verbatim.
pub fn validate_and_create_tunnel(
    name: &str,
    local_host: &str,
    local_port: &str,
    remote_host: &str,
    remote_port: &str,
    ssh_user: &str,
    ssh_host: &str,
    ssh_port: &str,
    private_key: &str,
) -> (r: Result<Tunnel, String>)
    ensures
        spec_is_blank(name@) ==> (r matches Err(e) && e@ == "Name is required"@),
        !spec_is_blank(name@) && spec_is_blank(local_port@) ==> (r matches Err(e) && e@
            == "Local port is required"@),
        !spec_is_blank(name@) && !spec_is_blank(local_port@) && spec_is_blank(remote_host@) ==> (
        r matches Err(e) && e@ == "Remote host is required"@),
        !spec_is_blank(name@) && !spec_is_blank(local_port@) && !spec_is_blank(remote_host@)
            && spec_is_blank(remote_port@) ==> (r matches Err(e) && e@
            == "Remote port is required"@),
        !spec_is_blank(name@) && !spec_is_blank(local_port@) && !spec_is_blank(remote_host@)
            && !spec_is_blank(remote_port@) && spec_is_blank(ssh_user@) ==> (r matches Err(e)
            && e@ == "SSH user is required"@),
        !spec_is_blank(name@) && !spec_is_blank(local_port@) && !spec_is_blank(remote_host@)
            && !spec_is_blank(remote_port@) && !spec_is_blank(ssh_user@) && spec_is_blank(
            ssh_host@,
        ) ==> (r matches Err(e) && e@ == "SSH host is required"@),
        !spec_is_blank(name@) && !spec_is_blank(local_port@) && !spec_is_blank(remote_host@)
            && !spec_is_blank(remote_port@) && !spec_is_blank(ssh_user@) && !spec_is_blank(
            ssh_host@,
        ) ==> (r matches Ok(t) && t@.id.len() == 36 && t@.name == name@ && t@.local_host
            == local_host@ && t@.local_port == local_port@ && t@.remote_host == remote_host@
            && t@.remote_port == remote_port@ && t@.ssh_user == ssh_user@ && t@.ssh_host
            == ssh_host@ && t@.ssh_port == ssh_port@ && t@.private_key == private_key@),
{
    if is_blank(name) {
        return Err(String::from_str("Name is required"));
    }
    if is_blank(local_port) {
        return Err(String::from_str("Local port is required"));
    }
    if is_blank(remote_host) {
        return Err(String::from_str("Remote host is required"));
    }
    if is_blank(remote_port) {
        return Err(String::from_str("Remote port is required"));
    }
    if is_blank(ssh_user) {
        return Err(String::from_str("SSH user is required"));
    }
    if is_blank(ssh_host) {
        return Err(String::from_str("SSH host is required"));
    }
    Ok(Tunnel {
        id: fresh_tunnel_id(),
        name: String::from_str(name),
        local_host: String::from_str(local_host),
        local_port: String::from_str(local_port),
        remote_host: String::from_str(remote_host),
        remote_port: String::from_str(remote_port),
        ssh_user: String::from_str(ssh_user),
        ssh_host: String::from_str(ssh_host),
        ssh_port: String::from_str(ssh_port),
        private_key: String::from_str(private_key),
    })
}

/// Which single action the tray menu offers for one tunnel.
#[derive(Clone, Copy, Debug, PartialEq, Eq, Structural)]
pub enum MenuAction {
    /// The tunnel is down or failed: offer to connect it.
    Connect,
    /// The tunnel is up or on its way: offer to disconnect it.
    Disconnect,
}

/// The action the tray offers for a status: connect for `Disconnected`
/// and `Error`, disconnect for every state with a live or pending child.
pub open spec fn spec_menu_action(s: StatusView) -> MenuAction {
    match s {
        StatusView::Disconnected => MenuAction::Connect,
        StatusView::Error { .. } => MenuAction::Connect,
        StatusView::Connecting => MenuAction::Disconnect,
        StatusView::Connected { .. } => MenuAction::Disconnect,
        StatusView::Reconnecting { .. } => MenuAction::Disconnect,
    }
}

/// Decide the one menu entry shown for a tunnel in the tray.
pub fn tunnel_menu_action(status: &TunnelStatus) -> (r: MenuAction)
    ensures
        r == spec_menu_action(status@),
{
    match status {
        TunnelStatus::Disconnected => MenuAction::Connect,
        TunnelStatus::Error { .. } => MenuAction::Connect,
        TunnelStatus::Connecting => MenuAction::Disconnect,
        TunnelStatus::Connected { .. } => MenuAction::Disconnect,
        TunnelStatus::Reconnecting { .. } => MenuAction::Disconnect,
    }
}

/// The tray's one-character indicator for a status.
pub open spec fn spec_status_indicator(s: StatusView) -> Seq<char> {
    match s {
        StatusView::Disconnected => "○ "@,
        StatusView::Connecting => "◐ "@,
        StatusView::Connected { .. } => "● "@,
        StatusView::Error { .. } => "✗ "@,
        StatusView::Reconnecting { .. } => "◐ "@,
    }
}

/// The tunnel's name as shown in the tray menu: a status indicator, then
/// the name.
pub fn get_tunnel_display_name(name: &str, status: TunnelStatus) -> (r: String)
    ensures
        r@ == spec_status_indicator(status@) + name@,
{
    let indicator = match status {
        TunnelStatus::Disconnected => "○ ",
        TunnelStatus::Connecting => "◐ ",
        TunnelStatus::Connected { .. } => "● ",
        TunnelStatus::Error { .. } => "✗ ",
        TunnelStatus::Reconnecting { .. } => "◐ ",
    };
    String::from_str(indicator).concat(name)
}

} // verus!
