//! What the workbench panes show and which user events their controls
//! raise: daemon connection chips, the diagnostics strip, the inspector and
//! the canvas placeholder. The painting itself is done around it.

use vstd::prelude::*;

use crate::text::{concat_text, decimal_string, decimal_text, owned, push_str};

verus! {

/// A daemon connection's state.
#[derive(Clone, Copy, Debug, Eq, PartialEq, Structural)]
pub enum DaemonStatus {
    Disconnected,
    Connecting,
    Handshaking,
    Connected,
}

/// One daemon connection as the header shows it.
#[derive(Clone, Debug)]
pub struct ConnectionView {
    pub label: String,
    pub status: DaemonStatus,
    pub version: Option<String>,
    pub note: Option<String>,
}

/// The daemons the header shows a chip for.
#[derive(Clone, Copy, Debug, Eq, PartialEq, Structural)]
pub enum ChipDaemon {
    Criome,
    Nexus,
}

/// The user events the workbench controls raise.
#[derive(Clone, Copy, Debug, Eq, PartialEq, Structural)]
pub enum WorkbenchEvent {
    ReconnectCriome,
    ReconnectNexus,
    ToggleTweaksPane,
    ToggleWirePane,
    ClearDiagnostics,
    ConstructorCancel,
}

/// How serious a diagnostic is.
#[derive(Clone, Copy, Debug, Eq, PartialEq, Structural)]
pub enum DiagnosticSeverity {
    Passed,
    Warning,
    Error,
}

pub open spec fn status_glyph_text(status: DaemonStatus) -> Seq<char> {
    match status {
        DaemonStatus::Disconnected => "○"@,
        DaemonStatus::Connecting => "◐"@,
        DaemonStatus::Handshaking => "◑"@,
        DaemonStatus::Connected => "●"@,
    }
}

pub fn status_glyph(status: DaemonStatus) -> (glyph: &'static str)
    ensures
        glyph@ == status_glyph_text(status),
{
    match status {
        DaemonStatus::Disconnected => "○",
        DaemonStatus::Connecting => "◐",
        DaemonStatus::Handshaking => "◑",
        DaemonStatus::Connected => "●",
    }
}

/// The words for a connection's state; a connected daemon shows its version
/// when it reported one.
pub open spec fn status_label_text(status: DaemonStatus, version: Option<Seq<char>>) -> Seq<char> {
    match status {
        DaemonStatus::Disconnected => "disconnected"@,
        DaemonStatus::Connecting => "connecting…"@,
        DaemonStatus::Handshaking => "handshaking"@,
        DaemonStatus::Connected => match version {
            Some(v) => "connected · v"@ + v,
            None => "connected"@,
        },
    }
}

pub open spec fn version_view(version: Option<String>) -> Option<Seq<char>> {
    match version {
        Some(v) => Some(v@),
        None => None,
    }
}

pub fn status_label(connection: &ConnectionView) -> (label: String)
    ensures
        label@ == status_label_text(connection.status, version_view(connection.version)),
{
    match connection.status {
        DaemonStatus::Disconnected => owned("disconnected"),
        DaemonStatus::Connecting => owned("connecting…"),
        DaemonStatus::Handshaking => owned("handshaking"),
        DaemonStatus::Connected => match &connection.version {
            Some(v) => concat_text("connected · v", v.as_str()),
            None => owned("connected"),
        },
    }
}

/// The chip text: glyph, connection label, state.
pub fn connection_chip_text(connection: &ConnectionView) -> (text: String)
    ensures
        text@ == status_glyph_text(connection.status) + " "@ + connection.label@ + " · "@
            + status_label_text(connection.status, version_view(connection.version)),
{
    let mut text = concat_text(status_glyph(connection.status), " ");
    push_str(&mut text, connection.label.as_str());
    push_str(&mut text, " · ");
    push_str(&mut text, status_label(connection).as_str());
    text
}

/// A disconnected daemon offers a reconnect button; the user reconnects
/// deliberately, nothing reconnects on its own.
pub fn offers_reconnect(status: DaemonStatus) -> (offers: bool)
    ensures
        offers == (status == DaemonStatus::Disconnected),
{
    matches!(status, DaemonStatus::Disconnected)
}

pub fn reconnect_event(daemon: ChipDaemon) -> (event: WorkbenchEvent)
    ensures
        daemon == ChipDaemon::Criome ==> event == WorkbenchEvent::ReconnectCriome,
        daemon == ChipDaemon::Nexus ==> event == WorkbenchEvent::ReconnectNexus,
{
    match daemon {
        ChipDaemon::Criome => WorkbenchEvent::ReconnectCriome,
        ChipDaemon::Nexus => WorkbenchEvent::ReconnectNexus,
    }
}

pub open spec fn severity_glyph_text(severity: DiagnosticSeverity) -> Seq<char> {
    match severity {
        DiagnosticSeverity::Passed => "✓"@,
        DiagnosticSeverity::Warning => "⚠"@,
        DiagnosticSeverity::Error => "✗"@,
    }
}

pub fn severity_glyph(severity: DiagnosticSeverity) -> (glyph: &'static str)
    ensures
        glyph@ == severity_glyph_text(severity),
{
    match severity {
        DiagnosticSeverity::Passed => "✓",
        DiagnosticSeverity::Warning => "⚠",
        DiagnosticSeverity::Error => "✗",
    }
}

/// The diagnostics strip's heading.
pub fn diagnostics_heading(count: usize) -> (heading: String)
    ensures
        heading@ == "⚠ DIAGNOSTICS ("@ + decimal_text(count as nat) + ")"@,
{
    let mut heading = concat_text("⚠ DIAGNOSTICS (", decimal_string(count as u64).as_str());
    push_str(&mut heading, ")");
    heading
}

/// One line of the diagnostics strip.
pub fn diagnostic_line(severity: DiagnosticSeverity, code: &str, message: &str) -> (line: String)
    ensures
        line@ == severity_glyph_text(severity) + " "@ + code@ + " · "@ + message@,
{
    let mut line = concat_text(severity_glyph(severity), " ");
    push_str(&mut line, code);
    push_str(&mut line, " · ");
    push_str(&mut line, message);
    line
}

/// The inspector's lines for the focused slot, or its placeholder.
pub fn inspector_lines(focused: &Option<(String, String)>) -> (lines: Vec<String>)
    ensures
        match focused {
            None => lines@.len() == 1 && lines@[0]@ == "(no selection)"@,
            Some((kind, name)) => lines@.len() == 2 && lines@[0]@ == "kind: "@ + kind@
                && lines@[1]@ == "name: "@ + name@,
        },
{
    let mut lines: Vec<String> = Vec::new();
    match focused {
        None => lines.push(owned("(no selection)")),
        Some((kind, name)) => {
            lines.push(concat_text("kind: ", kind.as_str()));
            lines.push(concat_text("name: ", name.as_str()));
        },
    }
    lines
}

/// The inspector's line for a pinned slot.
pub fn pinned_line(display_name: &str) -> (line: String)
    ensures
        line@ == "• "@ + display_name@,
{
    concat_text("• ", display_name)
}

/// The placeholder the graphs navigation shows when there is no graph.
pub fn graphs_placeholder(graph_count: usize) -> (placeholder: Option<&'static str>)
    ensures
        graph_count == 0 ==> (placeholder matches Some(p) && p@ == "(no graphs yet)"@),
        graph_count > 0 ==> placeholder is None,
{
    if graph_count == 0 {
        Some("(no graphs yet)")
    } else {
        None
    }
}

/// The header toggle a click raises.
pub fn toggle_event(wire: bool) -> (event: WorkbenchEvent)
    ensures
        wire ==> event == WorkbenchEvent::ToggleWirePane,
        !wire ==> event == WorkbenchEvent::ToggleTweaksPane,
{
    if wire {
        WorkbenchEvent::ToggleWirePane
    } else {
        WorkbenchEvent::ToggleTweaksPane
    }
}

} // verus!
