use vstd::prelude::*;

verus! {

/// The command line: where the node runs, how to reach it, and its role.
#[derive(Debug, Clone, PartialEq, Eq)]
pub struct Args {
    pub host: String,
    pub ip: String,
    pub mode: Mode,
}

/// The role the node takes.
#[derive(Debug, Clone, Copy, PartialEq, Eq, Structural)]
pub enum Mode {
    ClientMode,
    DiscoveryMode,
    UploadingMode,
    ServerMode,
    StreamingMode,
    TrackingMode,
}

/// The announcement for each mode.
pub open spec fn mode_text(mode: Mode) -> Seq<char> {
    match mode {
        Mode::ServerMode => "Server mode selected"@,
        Mode::ClientMode => "Client mode selected"@,
        Mode::DiscoveryMode => "Discovery mode selected"@,
        Mode::TrackingMode => "Tracking mode selected"@,
        Mode::StreamingMode => "Streaming mode selected"@,
        Mode::UploadingMode => "Uploading mode selected"@,
    }
}

/// The line that announces the mode chosen on the command line.
pub fn cli(args: &Args) -> (r: String)
    ensures
        r@ == mode_text(args.mode),
{
    match args.mode {
        Mode::ServerMode => "Server mode selected".to_owned(),
        Mode::ClientMode => "Client mode selected".to_owned(),
        Mode::DiscoveryMode => "Discovery mode selected".to_owned(),
        Mode::TrackingMode => "Tracking mode selected".to_owned(),
        Mode::StreamingMode => "Streaming mode selected".to_owned(),
        Mode::UploadingMode => "Uploading mode selected".to_owned(),
    }
}

} // verus!
