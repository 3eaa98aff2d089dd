use vstd::prelude::*;
use vstd::string::StringSliceAdditionalSpecFns;

verus! {

/// A function that the host offers to guests.
#[derive(Clone, Copy, Debug, PartialEq, Eq, Structural)]
pub enum HostFn {
    /// `graphics.clear_screen`
    ClearScreen,
    /// `graphics.set_color`
    SetColor,
    /// `graphics.draw_point`
    DrawPoint,
    /// `graphics.draw_line`
    DrawLine,
    /// `graphics.draw_rect`
    DrawRect,
    /// `graphics.draw_rounded_rect`
    DrawRoundedRect,
    /// `graphics.draw_circle`
    DrawCircle,
    /// `graphics.draw_ellipse`
    DrawEllipse,
    /// `graphics.draw_triangle`
    DrawTriangle,
    /// `graphics.draw_arc`
    DrawArc,
    /// `graphics.draw_sector`
    DrawSector,
    /// `graphics.draw_qr`
    DrawQr,
    /// `graphics.draw_text`
    DrawText,
    /// `graphics.draw_image`
    DrawImage,
    /// `graphics.draw_sub_image`
    DrawSubImage,
    /// `graphics.set_canvas`
    SetCanvas,
    /// `graphics.unset_canvas`
    UnsetCanvas,
    /// `audio.reset`
    Reset,
    /// `audio.reset_all`
    ResetAll,
    /// `audio.clear`
    Clear,
    /// `audio.add_empty`
    AddEmpty,
    /// `audio.add_file`
    AddFile,
    /// `audio.add_mix`
    AddMix,
    /// `audio.add_all_for_one`
    AddAllForOne,
    /// `audio.add_gain`
    AddGain,
    /// `audio.add_loop`
    AddLoop,
    /// `audio.add_concat`
    AddConcat,
    /// `audio.add_pan`
    AddPan,
    /// `audio.add_mute`
    AddMute,
    /// `audio.add_pause`
    AddPause,
    /// `audio.add_track_position`
    AddTrackPosition,
    /// `audio.add_low_pass`
    AddLowPass,
    /// `audio.add_high_pass`
    AddHighPass,
    /// `audio.add_take_left`
    AddTakeLeft,
    /// `audio.add_take_right`
    AddTakeRight,
    /// `audio.add_swap`
    AddSwap,
    /// `audio.add_clip`
    AddClip,
    /// `audio.add_noise`
    AddNoise,
    /// `audio.add_sine`
    AddSine,
    /// `audio.add_square`
    AddSquare,
    /// `audio.add_sawtooth`
    AddSawtooth,
    /// `audio.add_triangle`
    AddTriangle,
    /// `audio.add_zero`
    AddZero,
    /// `audio.mod_linear`
    ModLinear,
    /// `audio.mod_hold`
    ModHold,
    /// `audio.mod_sine`
    ModSine,
    /// `input.read_pad`
    ReadPad,
    /// `input.read_buttons`
    ReadButtons,
    /// `menu.add_menu_item`
    AddMenuItem,
    /// `menu.remove_menu_item`
    RemoveMenuItem,
    /// `menu.open_menu`
    OpenMenu,
    /// `fs.get_rom_file_size`
    GetRomFileSize,
    /// `fs.load_rom_file`
    LoadRomFile,
    /// `fs.get_file_size`
    GetFileSize,
    /// `fs.load_file`
    LoadFile,
    /// `fs.dump_file`
    DumpFile,
    /// `fs.remove_file`
    RemoveFile,
    /// `net.get_me`
    GetMe,
    /// `net.get_peers`
    GetPeers,
    /// `net.save_stash`
    SaveStash,
    /// `net.load_stash`
    LoadStash,
    /// `stats.add_progress`
    AddProgress,
    /// `stats.add_score`
    AddScore,
    /// `misc.log_debug`
    LogDebug,
    /// `misc.log_error`
    LogError,
    /// `misc.set_seed`
    SetSeed,
    /// `misc.get_random`
    GetRandom,
    /// `misc.get_name`
    GetName,
    /// `misc.restart`
    Restart,
    /// `misc.set_conn_status`
    SetConnStatus,
    /// `misc.quit`
    Quit,
    /// `sudo.list_dirs`
    SudoListDirs,
    /// `sudo.list_dirs_buf_size`
    SudoListDirsBufSize,
    /// `sudo.get_file_size`
    SudoGetFileSize,
    /// `sudo.load_file`
    SudoLoadFile,
    /// `sudo.run_app`
    SudoRunApp,
    /// `wasi_snapshot_preview1.environ_get`
    EnvironGet,
    /// `wasi_snapshot_preview1.environ_sizes_get`
    EnvironSizesGet,
    /// `wasi_snapshot_preview1.clock_time_get`
    ClockTimeGet,
    /// `wasi_snapshot_preview1.fd_close`
    FdClose,
    /// `wasi_snapshot_preview1.fd_read`
    FdRead,
    /// `wasi_snapshot_preview1.fd_seek`
    FdSeek,
    /// `wasi_snapshot_preview1.fd_write`
    FdWrite,
    /// `wasi_snapshot_preview1.proc_exit`
    ProcExit,
}

/// Why an import of a guest cannot be resolved.
#[derive(Clone, Copy, Debug, PartialEq, Eq, Structural)]
pub enum LinkError {
    /// No host function has this module and name.
    UnknownHostFunction,
    /// The `sudo` module was used while elevated privileges are off.
    UsedDisabledSudoHostFunction,
}

/// The modules that guests import from: the full ones and the short aliases.
#[derive(Clone, Copy, Debug, PartialEq, Eq, Structural)]
pub enum HostModule {
    Graphics,
    Audio,
    Input,
    Menu,
    Fs,
    Net,
    Stats,
    Misc,
    Sudo,
    Wasip1,
    ShortG,
    ShortI,
    ShortN,
    ShortS,
    ShortM,
}

/// The module named `m`.
pub open spec fn module_of(m: Seq<char>) -> Option<HostModule> {
    if m == "graphics"@ {
        Some(HostModule::Graphics)
    } else if m == "audio"@ {
        Some(HostModule::Audio)
    } else if m == "input"@ {
        Some(HostModule::Input)
    } else if m == "menu"@ {
        Some(HostModule::Menu)
    } else if m == "fs"@ {
        Some(HostModule::Fs)
    } else if m == "net"@ {
        Some(HostModule::Net)
    } else if m == "stats"@ {
        Some(HostModule::Stats)
    } else if m == "misc"@ {
        Some(HostModule::Misc)
    } else if m == "sudo"@ {
        Some(HostModule::Sudo)
    } else if m == "wasi_snapshot_preview1"@ {
        Some(HostModule::Wasip1)
    } else if m == "g"@ {
        Some(HostModule::ShortG)
    } else if m == "i"@ {
        Some(HostModule::ShortI)
    } else if m == "n"@ {
        Some(HostModule::ShortN)
    } else if m == "s"@ {
        Some(HostModule::ShortS)
    } else if m == "m"@ {
        Some(HostModule::ShortM)
    } else {
        None
    }
}

/// The function named `n` in the module `graphics`.
pub open spec fn graphics_fn(n: Seq<char>) -> Option<HostFn> {
    if n == "clear_screen"@ {
        Some(HostFn::ClearScreen)
    } else if n == "set_color"@ {
        Some(HostFn::SetColor)
    } else if n == "draw_point"@ {
        Some(HostFn::DrawPoint)
    } else if n == "draw_line"@ {
        Some(HostFn::DrawLine)
    } else if n == "draw_rect"@ {
        Some(HostFn::DrawRect)
    } else if n == "draw_rounded_rect"@ {
        Some(HostFn::DrawRoundedRect)
    } else if n == "draw_circle"@ {
        Some(HostFn::DrawCircle)
    } else if n == "draw_ellipse"@ {
        Some(HostFn::DrawEllipse)
    } else if n == "draw_triangle"@ {
        Some(HostFn::DrawTriangle)
    } else if n == "draw_arc"@ {
        Some(HostFn::DrawArc)
    } else if n == "draw_sector"@ {
        Some(HostFn::DrawSector)
    } else if n == "draw_qr"@ {
        Some(HostFn::DrawQr)
    } else if n == "draw_text"@ {
        Some(HostFn::DrawText)
    } else if n == "draw_image"@ {
        Some(HostFn::DrawImage)
    } else if n == "draw_sub_image"@ {
        Some(HostFn::DrawSubImage)
    } else if n == "set_canvas"@ {
        Some(HostFn::SetCanvas)
    } else if n == "unset_canvas"@ {
        Some(HostFn::UnsetCanvas)
    } else {
        None
    }
}

/// The function named `n` in the module `audio`.
pub open spec fn audio_fn(n: Seq<char>) -> Option<HostFn> {
    if n == "reset"@ {
        Some(HostFn::Reset)
    } else if n == "reset_all"@ {
        Some(HostFn::ResetAll)
    } else if n == "clear"@ {
        Some(HostFn::Clear)
    } else if n == "add_empty"@ {
        Some(HostFn::AddEmpty)
    } else if n == "add_file"@ {
        Some(HostFn::AddFile)
    } else if n == "add_mix"@ {
        Some(HostFn::AddMix)
    } else if n == "add_all_for_one"@ {
        Some(HostFn::AddAllForOne)
    } else if n == "add_gain"@ {
        Some(HostFn::AddGain)
    } else if n == "add_loop"@ {
        Some(HostFn::AddLoop)
    } else if n == "add_concat"@ {
        Some(HostFn::AddConcat)
    } else if n == "add_pan"@ {
        Some(HostFn::AddPan)
    } else if n == "add_mute"@ {
        Some(HostFn::AddMute)
    } else if n == "add_pause"@ {
        Some(HostFn::AddPause)
    } else if n == "add_track_position"@ {
        Some(HostFn::AddTrackPosition)
    } else if n == "add_low_pass"@ {
        Some(HostFn::AddLowPass)
    } else if n == "add_high_pass"@ {
        Some(HostFn::AddHighPass)
    } else if n == "add_take_left"@ {
        Some(HostFn::AddTakeLeft)
    } else if n == "add_take_right"@ {
        Some(HostFn::AddTakeRight)
    } else if n == "add_swap"@ {
        Some(HostFn::AddSwap)
    } else if n == "add_clip"@ {
        Some(HostFn::AddClip)
    } else if n == "add_noise"@ {
        Some(HostFn::AddNoise)
    } else if n == "add_sine"@ {
        Some(HostFn::AddSine)
    } else if n == "add_square"@ {
        Some(HostFn::AddSquare)
    } else if n == "add_sawtooth"@ {
        Some(HostFn::AddSawtooth)
    } else if n == "add_triangle"@ {
        Some(HostFn::AddTriangle)
    } else if n == "add_zero"@ {
        Some(HostFn::AddZero)
    } else if n == "mod_linear"@ {
        Some(HostFn::ModLinear)
    } else if n == "mod_hold"@ {
        Some(HostFn::ModHold)
    } else if n == "mod_sine"@ {
        Some(HostFn::ModSine)
    } else {
        None
    }
}

/// The function named `n` in the module `input`.
pub open spec fn input_fn(n: Seq<char>) -> Option<HostFn> {
    if n == "read_pad"@ {
        Some(HostFn::ReadPad)
    } else if n == "read_buttons"@ {
        Some(HostFn::ReadButtons)
    } else {
        None
    }
}

/// The function named `n` in the module `menu`.
pub open spec fn menu_fn(n: Seq<char>) -> Option<HostFn> {
    if n == "add_menu_item"@ {
        Some(HostFn::AddMenuItem)
    } else if n == "remove_menu_item"@ {
        Some(HostFn::RemoveMenuItem)
    } else if n == "open_menu"@ {
        Some(HostFn::OpenMenu)
    } else {
        None
    }
}

/// The function named `n` in the module `fs`.
pub open spec fn fs_fn(n: Seq<char>) -> Option<HostFn> {
    if n == "get_rom_file_size"@ {
        Some(HostFn::GetRomFileSize)
    } else if n == "load_rom_file"@ {
        Some(HostFn::LoadRomFile)
    } else if n == "get_file_size"@ {
        Some(HostFn::GetFileSize)
    } else if n == "load_file"@ {
        Some(HostFn::LoadFile)
    } else if n == "dump_file"@ {
        Some(HostFn::DumpFile)
    } else if n == "remove_file"@ {
        Some(HostFn::RemoveFile)
    } else {
        None
    }
}

/// The function named `n` in the module `net`.
pub open spec fn net_fn(n: Seq<char>) -> Option<HostFn> {
    if n == "get_me"@ {
        Some(HostFn::GetMe)
    } else if n == "get_peers"@ {
        Some(HostFn::GetPeers)
    } else if n == "save_stash"@ {
        Some(HostFn::SaveStash)
    } else if n == "load_stash"@ {
        Some(HostFn::LoadStash)
    } else {
        None
    }
}

/// The function named `n` in the module `stats`.
pub open spec fn stats_fn(n: Seq<char>) -> Option<HostFn> {
    if n == "add_progress"@ {
        Some(HostFn::AddProgress)
    } else if n == "add_score"@ {
        Some(HostFn::AddScore)
    } else {
        None
    }
}

/// The function named `n` in the module `misc`.
pub open spec fn misc_fn(n: Seq<char>) -> Option<HostFn> {
    if n == "log_debug"@ {
        Some(HostFn::LogDebug)
    } else if n == "log_error"@ {
        Some(HostFn::LogError)
    } else if n == "set_seed"@ {
        Some(HostFn::SetSeed)
    } else if n == "get_random"@ {
        Some(HostFn::GetRandom)
    } else if n == "get_name"@ {
        Some(HostFn::GetName)
    } else if n == "restart"@ {
        Some(HostFn::Restart)
    } else if n == "set_conn_status"@ {
        Some(HostFn::SetConnStatus)
    } else if n == "quit"@ {
        Some(HostFn::Quit)
    } else {
        None
    }
}

/// The function named `n` in the module `sudo`.
pub open spec fn sudo_fn(n: Seq<char>) -> Option<HostFn> {
    if n == "list_dirs"@ {
        Some(HostFn::SudoListDirs)
    } else if n == "list_dirs_buf_size"@ {
        Some(HostFn::SudoListDirsBufSize)
    } else if n == "get_file_size"@ {
        Some(HostFn::SudoGetFileSize)
    } else if n == "load_file"@ {
        Some(HostFn::SudoLoadFile)
    } else if n == "run_app"@ {
        Some(HostFn::SudoRunApp)
    } else {
        None
    }
}

/// The function named `n` in the module `wasi_snapshot_preview1`.
pub open spec fn wasip1_fn(n: Seq<char>) -> Option<HostFn> {
    if n == "environ_get"@ {
        Some(HostFn::EnvironGet)
    } else if n == "environ_sizes_get"@ {
        Some(HostFn::EnvironSizesGet)
    } else if n == "clock_time_get"@ {
        Some(HostFn::ClockTimeGet)
    } else if n == "fd_close"@ {
        Some(HostFn::FdClose)
    } else if n == "fd_read"@ {
        Some(HostFn::FdRead)
    } else if n == "fd_seek"@ {
        Some(HostFn::FdSeek)
    } else if n == "fd_write"@ {
        Some(HostFn::FdWrite)
    } else if n == "proc_exit"@ {
        Some(HostFn::ProcExit)
    } else {
        None
    }
}

/// The function with the short name `n` in the module `g`.
pub open spec fn short_g_fn(n: Seq<char>) -> Option<HostFn> {
    if n == "a"@ {
        Some(HostFn::DrawArc)
    } else if n == "c"@ {
        Some(HostFn::DrawCircle)
    } else if n == "ca"@ {
        Some(HostFn::SetCanvas)
    } else if n == "cr"@ {
        Some(HostFn::UnsetCanvas)
    } else if n == "cs"@ {
        Some(HostFn::ClearScreen)
    } else if n == "e"@ {
        Some(HostFn::DrawEllipse)
    } else if n == "i"@ {
        Some(HostFn::DrawImage)
    } else if n == "l"@ {
        Some(HostFn::DrawLine)
    } else if n == "p"@ {
        Some(HostFn::DrawPoint)
    } else if n == "q"@ {
        Some(HostFn::DrawQr)
    } else if n == "r"@ {
        Some(HostFn::DrawRect)
    } else if n == "rr"@ {
        Some(HostFn::DrawRoundedRect)
    } else if n == "s"@ {
        Some(HostFn::DrawSector)
    } else if n == "sc"@ {
        Some(HostFn::SetColor)
    } else if n == "si"@ {
        Some(HostFn::DrawSubImage)
    } else if n == "t"@ {
        Some(HostFn::DrawTriangle)
    } else if n == "x"@ {
        Some(HostFn::DrawText)
    } else {
        None
    }
}

/// The function with the short name `n` in the module `i`.
pub open spec fn short_i_fn(n: Seq<char>) -> Option<HostFn> {
    if n == "p"@ {
        Some(HostFn::ReadPad)
    } else if n == "b"@ {
        Some(HostFn::ReadButtons)
    } else {
        None
    }
}

/// The function with the short name `n` in the module `n`.
pub open spec fn short_n_fn(n: Seq<char>) -> Option<HostFn> {
    if n == "l"@ {
        Some(HostFn::LoadStash)
    } else if n == "m"@ {
        Some(HostFn::GetMe)
    } else if n == "p"@ {
        Some(HostFn::GetPeers)
    } else if n == "s"@ {
        Some(HostFn::SaveStash)
    } else {
        None
    }
}

/// The function with the short name `n` in the module `s`.
pub open spec fn short_s_fn(n: Seq<char>) -> Option<HostFn> {
    if n == "p"@ {
        Some(HostFn::AddProgress)
    } else if n == "s"@ {
        Some(HostFn::AddScore)
    } else {
        None
    }
}

/// The function with the short name `n` in the module `m`.
pub open spec fn short_m_fn(n: Seq<char>) -> Option<HostFn> {
    if n == "d"@ {
        Some(HostFn::LogDebug)
    } else if n == "e"@ {
        Some(HostFn::LogError)
    } else if n == "n"@ {
        Some(HostFn::GetName)
    } else if n == "q"@ {
        Some(HostFn::Quit)
    } else if n == "r"@ {
        Some(HostFn::GetRandom)
    } else if n == "s"@ {
        Some(HostFn::SetSeed)
    } else {
        None
    }
}

/// The function in module `module` named `name`, found as a guest's
/// import is resolved; the `sudo` module only when `sudo` is on.
pub open spec fn resolve_spec(module: Seq<char>, name: Seq<char>, sudo: bool) -> Result<
    HostFn,
    LinkError,
> {
    match module_of(module) {
        None => Err(LinkError::UnknownHostFunction),
        Some(k) => if k == HostModule::Sudo && !sudo {
            Err(LinkError::UsedDisabledSudoHostFunction)
        } else {
            match fn_in(k, name) {
                Some(f) => Ok(f),
                None => Err(LinkError::UnknownHostFunction),
            }
        },
    }
}

/// The function named `name` in the module `k`.
pub open spec fn fn_in(k: HostModule, name: Seq<char>) -> Option<HostFn> {
    match k {
        HostModule::Graphics => graphics_fn(name),
        HostModule::Audio => audio_fn(name),
        HostModule::Input => input_fn(name),
        HostModule::Menu => menu_fn(name),
        HostModule::Fs => fs_fn(name),
        HostModule::Net => net_fn(name),
        HostModule::Stats => stats_fn(name),
        HostModule::Misc => misc_fn(name),
        HostModule::Sudo => sudo_fn(name),
        HostModule::Wasip1 => wasip1_fn(name),
        HostModule::ShortG => short_g_fn(name),
        HostModule::ShortI => short_i_fn(name),
        HostModule::ShortN => short_n_fn(name),
        HostModule::ShortS => short_s_fn(name),
        HostModule::ShortM => short_m_fn(name),
    }
}

/// Whether two strings are equal.
pub fn same_str(a: &str, b: &str) -> (r: bool)
    ensures
        r == (a@ == b@),
{
    let x = a.as_bytes();
    let y = b.as_bytes();
    assert(x@ == vstd::utf8::encode_utf8(a@));
    assert(y@ == vstd::utf8::encode_utf8(b@));
    proof {
        vstd::utf8::encode_utf8_decode_utf8(a@);
        vstd::utf8::encode_utf8_decode_utf8(b@);
    }
    if x.len() != y.len() {
        return false;
    }
    let mut i: usize = 0;
    while i < x.len()
        invariant
            x@ == vstd::utf8::encode_utf8(a@),
            y@ == vstd::utf8::encode_utf8(b@),
            vstd::utf8::decode_utf8(x@) == a@,
            vstd::utf8::decode_utf8(y@) == b@,
            x@.len() == y@.len(),
            i <= x@.len(),
            forall|j: int| 0 <= j < i ==> x@[j] == y@[j],
        decreases x@.len() - i,
    {
        if x[i] != y[i] {
            return false;
        }
        i = i + 1;
    }
    assert(x@ =~= y@);
    true
}

/// The module named `m`.
fn select_module(m: &str) -> (r: Option<HostModule>)
    ensures
        r == module_of(m@),
{
    if same_str(m, "graphics") {
        Some(HostModule::Graphics)
    } else if same_str(m, "audio") {
        Some(HostModule::Audio)
    } else if same_str(m, "input") {
        Some(HostModule::Input)
    } else if same_str(m, "menu") {
        Some(HostModule::Menu)
    } else if same_str(m, "fs") {
        Some(HostModule::Fs)
    } else if same_str(m, "net") {
        Some(HostModule::Net)
    } else if same_str(m, "stats") {
        Some(HostModule::Stats)
    } else if same_str(m, "misc") {
        Some(HostModule::Misc)
    } else if same_str(m, "sudo") {
        Some(HostModule::Sudo)
    } else if same_str(m, "wasi_snapshot_preview1") {
        Some(HostModule::Wasip1)
    } else if same_str(m, "g") {
        Some(HostModule::ShortG)
    } else if same_str(m, "i") {
        Some(HostModule::ShortI)
    } else if same_str(m, "n") {
        Some(HostModule::ShortN)
    } else if same_str(m, "s") {
        Some(HostModule::ShortS)
    } else if same_str(m, "m") {
        Some(HostModule::ShortM)
    } else {
        None
    }
}

/// The function named `n` in the module `graphics`.
fn select_graphics(n: &str) -> (r: Option<HostFn>)
    ensures
        r == graphics_fn(n@),
{
    if same_str(n, "clear_screen") {
        Some(HostFn::ClearScreen)
    } else if same_str(n, "set_color") {
        Some(HostFn::SetColor)
    } else if same_str(n, "draw_point") {
        Some(HostFn::DrawPoint)
    } else if same_str(n, "draw_line") {
        Some(HostFn::DrawLine)
    } else if same_str(n, "draw_rect") {
        Some(HostFn::DrawRect)
    } else if same_str(n, "draw_rounded_rect") {
        Some(HostFn::DrawRoundedRect)
    } else if same_str(n, "draw_circle") {
        Some(HostFn::DrawCircle)
    } else if same_str(n, "draw_ellipse") {
        Some(HostFn::DrawEllipse)
    } else if same_str(n, "draw_triangle") {
        Some(HostFn::DrawTriangle)
    } else if same_str(n, "draw_arc") {
        Some(HostFn::DrawArc)
    } else if same_str(n, "draw_sector") {
        Some(HostFn::DrawSector)
    } else if same_str(n, "draw_qr") {
        Some(HostFn::DrawQr)
    } else if same_str(n, "draw_text") {
        Some(HostFn::DrawText)
    } else if same_str(n, "draw_image") {
        Some(HostFn::DrawImage)
    } else if same_str(n, "draw_sub_image") {
        Some(HostFn::DrawSubImage)
    } else if same_str(n, "set_canvas") {
        Some(HostFn::SetCanvas)
    } else if same_str(n, "unset_canvas") {
        Some(HostFn::UnsetCanvas)
    } else {
        None
    }
}

/// The function named `n` in the module `audio`.
fn select_audio(n: &str) -> (r: Option<HostFn>)
    ensures
        r == audio_fn(n@),
{
    if same_str(n, "reset") {
        Some(HostFn::Reset)
    } else if same_str(n, "reset_all") {
        Some(HostFn::ResetAll)
    } else if same_str(n, "clear") {
        Some(HostFn::Clear)
    } else if same_str(n, "add_empty") {
        Some(HostFn::AddEmpty)
    } else if same_str(n, "add_file") {
        Some(HostFn::AddFile)
    } else if same_str(n, "add_mix") {
        Some(HostFn::AddMix)
    } else if same_str(n, "add_all_for_one") {
        Some(HostFn::AddAllForOne)
    } else if same_str(n, "add_gain") {
        Some(HostFn::AddGain)
    } else if same_str(n, "add_loop") {
        Some(HostFn::AddLoop)
    } else if same_str(n, "add_concat") {
        Some(HostFn::AddConcat)
    } else if same_str(n, "add_pan") {
        Some(HostFn::AddPan)
    } else if same_str(n, "add_mute") {
        Some(HostFn::AddMute)
    } else if same_str(n, "add_pause") {
        Some(HostFn::AddPause)
    } else if same_str(n, "add_track_position") {
        Some(HostFn::AddTrackPosition)
    } else if same_str(n, "add_low_pass") {
        Some(HostFn::AddLowPass)
    } else if same_str(n, "add_high_pass") {
        Some(HostFn::AddHighPass)
    } else if same_str(n, "add_take_left") {
        Some(HostFn::AddTakeLeft)
    } else if same_str(n, "add_take_right") {
        Some(HostFn::AddTakeRight)
    } else if same_str(n, "add_swap") {
        Some(HostFn::AddSwap)
    } else if same_str(n, "add_clip") {
        Some(HostFn::AddClip)
    } else if same_str(n, "add_noise") {
        Some(HostFn::AddNoise)
    } else if same_str(n, "add_sine") {
        Some(HostFn::AddSine)
    } else if same_str(n, "add_square") {
        Some(HostFn::AddSquare)
    } else if same_str(n, "add_sawtooth") {
        Some(HostFn::AddSawtooth)
    } else if same_str(n, "add_triangle") {
        Some(HostFn::AddTriangle)
    } else if same_str(n, "add_zero") {
        Some(HostFn::AddZero)
    } else if same_str(n, "mod_linear") {
        Some(HostFn::ModLinear)
    } else if same_str(n, "mod_hold") {
        Some(HostFn::ModHold)
    } else if same_str(n, "mod_sine") {
        Some(HostFn::ModSine)
    } else {
        None
    }
}

/// The function named `n` in the module `input`.
fn select_input(n: &str) -> (r: Option<HostFn>)
    ensures
        r == input_fn(n@),
{
    if same_str(n, "read_pad") {
        Some(HostFn::ReadPad)
    } else if same_str(n, "read_buttons") {
        Some(HostFn::ReadButtons)
    } else {
        None
    }
}

/// The function named `n` in the module `menu`.
fn select_menu(n: &str) -> (r: Option<HostFn>)
    ensures
        r == menu_fn(n@),
{
    if same_str(n, "add_menu_item") {
        Some(HostFn::AddMenuItem)
    } else if same_str(n, "remove_menu_item") {
        Some(HostFn::RemoveMenuItem)
    } else if same_str(n, "open_menu") {
        Some(HostFn::OpenMenu)
    } else {
        None
    }
}

/// The function named `n` in the module `fs`.
fn select_fs(n: &str) -> (r: Option<HostFn>)
    ensures
        r == fs_fn(n@),
{
    if same_str(n, "get_rom_file_size") {
        Some(HostFn::GetRomFileSize)
    } else if same_str(n, "load_rom_file") {
        Some(HostFn::LoadRomFile)
    } else if same_str(n, "get_file_size") {
        Some(HostFn::GetFileSize)
    } else if same_str(n, "load_file") {
        Some(HostFn::LoadFile)
    } else if same_str(n, "dump_file") {
        Some(HostFn::DumpFile)
    } else if same_str(n, "remove_file") {
        Some(HostFn::RemoveFile)
    } else {
        None
    }
}

/// The function named `n` in the module `net`.
fn select_net(n: &str) -> (r: Option<HostFn>)
    ensures
        r == net_fn(n@),
{
    if same_str(n, "get_me") {
        Some(HostFn::GetMe)
    } else if same_str(n, "get_peers") {
        Some(HostFn::GetPeers)
    } else if same_str(n, "save_stash") {
        Some(HostFn::SaveStash)
    } else if same_str(n, "load_stash") {
        Some(HostFn::LoadStash)
    } else {
        None
    }
}

/// The function named `n` in the module `stats`.
fn select_stats(n: &str) -> (r: Option<HostFn>)
    ensures
        r == stats_fn(n@),
{
    if same_str(n, "add_progress") {
        Some(HostFn::AddProgress)
    } else if same_str(n, "add_score") {
        Some(HostFn::AddScore)
    } else {
        None
    }
}

/// The function named `n` in the module `misc`.
fn select_misc(n: &str) -> (r: Option<HostFn>)
    ensures
        r == misc_fn(n@),
{
    if same_str(n, "log_debug") {
        Some(HostFn::LogDebug)
    } else if same_str(n, "log_error") {
        Some(HostFn::LogError)
    } else if same_str(n, "set_seed") {
        Some(HostFn::SetSeed)
    } else if same_str(n, "get_random") {
        Some(HostFn::GetRandom)
    } else if same_str(n, "get_name") {
        Some(HostFn::GetName)
    } else if same_str(n, "restart") {
        Some(HostFn::Restart)
    } else if same_str(n, "set_conn_status") {
        Some(HostFn::SetConnStatus)
    } else if same_str(n, "quit") {
        Some(HostFn::Quit)
    } else {
        None
    }
}

/// The function named `n` in the module `sudo`.
fn select_sudo(n: &str) -> (r: Option<HostFn>)
    ensures
        r == sudo_fn(n@),
{
    if same_str(n, "list_dirs") {
        Some(HostFn::SudoListDirs)
    } else if same_str(n, "list_dirs_buf_size") {
        Some(HostFn::SudoListDirsBufSize)
    } else if same_str(n, "get_file_size") {
        Some(HostFn::SudoGetFileSize)
    } else if same_str(n, "load_file") {
        Some(HostFn::SudoLoadFile)
    } else if same_str(n, "run_app") {
        Some(HostFn::SudoRunApp)
    } else {
        None
    }
}

/// The function named `n` in the module `wasi_snapshot_preview1`.
fn select_wasip1(n: &str) -> (r: Option<HostFn>)
    ensures
        r == wasip1_fn(n@),
{
    if same_str(n, "environ_get") {
        Some(HostFn::EnvironGet)
    } else if same_str(n, "environ_sizes_get") {
        Some(HostFn::EnvironSizesGet)
    } else if same_str(n, "clock_time_get") {
        Some(HostFn::ClockTimeGet)
    } else if same_str(n, "fd_close") {
        Some(HostFn::FdClose)
    } else if same_str(n, "fd_read") {
        Some(HostFn::FdRead)
    } else if same_str(n, "fd_seek") {
        Some(HostFn::FdSeek)
    } else if same_str(n, "fd_write") {
        Some(HostFn::FdWrite)
    } else if same_str(n, "proc_exit") {
        Some(HostFn::ProcExit)
    } else {
        None
    }
}

/// The function with the short name `n` in the module `g`.
fn select_short_g(n: &str) -> (r: Option<HostFn>)
    ensures
        r == short_g_fn(n@),
{
    if same_str(n, "a") {
        Some(HostFn::DrawArc)
    } else if same_str(n, "c") {
        Some(HostFn::DrawCircle)
    } else if same_str(n, "ca") {
        Some(HostFn::SetCanvas)
    } else if same_str(n, "cr") {
        Some(HostFn::UnsetCanvas)
    } else if same_str(n, "cs") {
        Some(HostFn::ClearScreen)
    } else if same_str(n, "e") {
        Some(HostFn::DrawEllipse)
    } else if same_str(n, "i") {
        Some(HostFn::DrawImage)
    } else if same_str(n, "l") {
        Some(HostFn::DrawLine)
    } else if same_str(n, "p") {
        Some(HostFn::DrawPoint)
    } else if same_str(n, "q") {
        Some(HostFn::DrawQr)
    } else if same_str(n, "r") {
        Some(HostFn::DrawRect)
    } else if same_str(n, "rr") {
        Some(HostFn::DrawRoundedRect)
    } else if same_str(n, "s") {
        Some(HostFn::DrawSector)
    } else if same_str(n, "sc") {
        Some(HostFn::SetColor)
    } else if same_str(n, "si") {
        Some(HostFn::DrawSubImage)
    } else if same_str(n, "t") {
        Some(HostFn::DrawTriangle)
    } else if same_str(n, "x") {
        Some(HostFn::DrawText)
    } else {
        None
    }
}

/// The function with the short name `n` in the module `i`.
fn select_short_i(n: &str) -> (r: Option<HostFn>)
    ensures
        r == short_i_fn(n@),
{
    if same_str(n, "p") {
        Some(HostFn::ReadPad)
    } else if same_str(n, "b") {
        Some(HostFn::ReadButtons)
    } else {
        None
    }
}

/// The function with the short name `n` in the module `n`.
fn select_short_n(n: &str) -> (r: Option<HostFn>)
    ensures
        r == short_n_fn(n@),
{
    if same_str(n, "l") {
        Some(HostFn::LoadStash)
    } else if same_str(n, "m") {
        Some(HostFn::GetMe)
    } else if same_str(n, "p") {
        Some(HostFn::GetPeers)
    } else if same_str(n, "s") {
        Some(HostFn::SaveStash)
    } else {
        None
    }
}

/// The function with the short name `n` in the module `s`.
fn select_short_s(n: &str) -> (r: Option<HostFn>)
    ensures
        r == short_s_fn(n@),
{
    if same_str(n, "p") {
        Some(HostFn::AddProgress)
    } else if same_str(n, "s") {
        Some(HostFn::AddScore)
    } else {
        None
    }
}

/// The function with the short name `n` in the module `m`.
fn select_short_m(n: &str) -> (r: Option<HostFn>)
    ensures
        r == short_m_fn(n@),
{
    if same_str(n, "d") {
        Some(HostFn::LogDebug)
    } else if same_str(n, "e") {
        Some(HostFn::LogError)
    } else if same_str(n, "n") {
        Some(HostFn::GetName)
    } else if same_str(n, "q") {
        Some(HostFn::Quit)
    } else if same_str(n, "r") {
        Some(HostFn::GetRandom)
    } else if same_str(n, "s") {
        Some(HostFn::SetSeed)
    } else {
        None
    }
}

/// Resolve the import `module`.`name` of a guest to a host function. The
/// `sudo` module is refused unless `sudo` is on.
pub fn resolve(module: &str, name: &str, sudo: bool) -> (r: Result<HostFn, LinkError>)
    ensures
        r == resolve_spec(module@, name@, sudo),
{
    let k = match select_module(module) {
        Some(k) => k,
        None => return Err(LinkError::UnknownHostFunction),
    };
    if k == HostModule::Sudo && !sudo {
        return Err(LinkError::UsedDisabledSudoHostFunction);
    }
    let f = match k {
        HostModule::Graphics => select_graphics(name),
        HostModule::Audio => select_audio(name),
        HostModule::Input => select_input(name),
        HostModule::Menu => select_menu(name),
        HostModule::Fs => select_fs(name),
        HostModule::Net => select_net(name),
        HostModule::Stats => select_stats(name),
        HostModule::Misc => select_misc(name),
        HostModule::Sudo => select_sudo(name),
        HostModule::Wasip1 => select_wasip1(name),
        HostModule::ShortG => select_short_g(name),
        HostModule::ShortI => select_short_i(name),
        HostModule::ShortN => select_short_n(name),
        HostModule::ShortS => select_short_s(name),
        HostModule::ShortM => select_short_m(name),
    };
    match f {
        Some(f) => Ok(f),
        None => Err(LinkError::UnknownHostFunction),
    }
}

/// Resolve every import of a guest, in order, each given as its module and
/// name; the first that cannot be resolved stops the work.
pub fn populate_externals(imports: &Vec<(String, String)>, sudo: bool) -> (r: Result<
    Vec<HostFn>,
    LinkError,
>)
    ensures
        match r {
            Ok(fs) => fs@.len() == imports@.len() && forall|i: int|
                0 <= i < imports@.len() ==> resolve_spec(imports@[i].0@, imports@[i].1@, sudo)
                    == Ok::<HostFn, LinkError>(#[trigger] fs@[i]),
            Err(e) => exists|i: int|
                0 <= i < imports@.len() && resolve_spec(imports@[i].0@, imports@[i].1@, sudo)
                    == Err::<HostFn, LinkError>(e) && forall|j: int|
                    0 <= j < i ==> (#[trigger] resolve_spec(
                        imports@[j].0@,
                        imports@[j].1@,
                        sudo,
                    )).is_ok(),
        },
{
    let mut out: Vec<HostFn> = Vec::new();
    let mut i: usize = 0;
    while i < imports.len()
        invariant
            i <= imports@.len(),
            out@.len() == i,
            forall|j: int|
                0 <= j < i ==> resolve_spec(imports@[j].0@, imports@[j].1@, sudo) == Ok::<
                    HostFn,
                    LinkError,
                >(#[trigger] out@[j]),
        decreases imports@.len() - i,
    {
        let (m, n) = (&imports[i].0, &imports[i].1);
        match resolve(m.as_str(), n.as_str(), sudo) {
            Ok(f) => out.push(f),
            Err(e) => {
                assert forall|j: int| 0 <= j < i implies (#[trigger] resolve_spec(
                    imports@[j].0@,
                    imports@[j].1@,
                    sudo,
                )).is_ok() by {
                    assert(resolve_spec(imports@[j].0@, imports@[j].1@, sudo) == Ok::<
                        HostFn,
                        LinkError,
                    >(out@[j]));
                }
                return Err(e);
            },
        }
        i = i + 1;
    }
    Ok(out)
}

/// Every short alias resolves to the same host function as its full name,
/// whether `sudo` is on or off.
pub proof fn lemma_aliases_match_full_names(sudo: bool)
    ensures
        resolve_spec("g"@, "a"@, sudo) == resolve_spec("graphics"@, "draw_arc"@, sudo),
        resolve_spec("g"@, "a"@, sudo) == Ok::<HostFn, LinkError>(HostFn::DrawArc),
        resolve_spec("g"@, "c"@, sudo) == resolve_spec("graphics"@, "draw_circle"@, sudo),
        resolve_spec("g"@, "c"@, sudo) == Ok::<HostFn, LinkError>(HostFn::DrawCircle),
        resolve_spec("g"@, "ca"@, sudo) == resolve_spec("graphics"@, "set_canvas"@, sudo),
        resolve_spec("g"@, "ca"@, sudo) == Ok::<HostFn, LinkError>(HostFn::SetCanvas),
        resolve_spec("g"@, "cr"@, sudo) == resolve_spec("graphics"@, "unset_canvas"@, sudo),
        resolve_spec("g"@, "cr"@, sudo) == Ok::<HostFn, LinkError>(HostFn::UnsetCanvas),
        resolve_spec("g"@, "cs"@, sudo) == resolve_spec("graphics"@, "clear_screen"@, sudo),
        resolve_spec("g"@, "cs"@, sudo) == Ok::<HostFn, LinkError>(HostFn::ClearScreen),
        resolve_spec("g"@, "e"@, sudo) == resolve_spec("graphics"@, "draw_ellipse"@, sudo),
        resolve_spec("g"@, "e"@, sudo) == Ok::<HostFn, LinkError>(HostFn::DrawEllipse),
        resolve_spec("g"@, "i"@, sudo) == resolve_spec("graphics"@, "draw_image"@, sudo),
        resolve_spec("g"@, "i"@, sudo) == Ok::<HostFn, LinkError>(HostFn::DrawImage),
        resolve_spec("g"@, "l"@, sudo) == resolve_spec("graphics"@, "draw_line"@, sudo),
        resolve_spec("g"@, "l"@, sudo) == Ok::<HostFn, LinkError>(HostFn::DrawLine),
        resolve_spec("g"@, "p"@, sudo) == resolve_spec("graphics"@, "draw_point"@, sudo),
        resolve_spec("g"@, "p"@, sudo) == Ok::<HostFn, LinkError>(HostFn::DrawPoint),
        resolve_spec("g"@, "q"@, sudo) == resolve_spec("graphics"@, "draw_qr"@, sudo),
        resolve_spec("g"@, "q"@, sudo) == Ok::<HostFn, LinkError>(HostFn::DrawQr),
        resolve_spec("g"@, "r"@, sudo) == resolve_spec("graphics"@, "draw_rect"@, sudo),
        resolve_spec("g"@, "r"@, sudo) == Ok::<HostFn, LinkError>(HostFn::DrawRect),
        resolve_spec("g"@, "rr"@, sudo) == resolve_spec("graphics"@, "draw_rounded_rect"@, sudo),
        resolve_spec("g"@, "rr"@, sudo) == Ok::<HostFn, LinkError>(HostFn::DrawRoundedRect),
        resolve_spec("g"@, "s"@, sudo) == resolve_spec("graphics"@, "draw_sector"@, sudo),
        resolve_spec("g"@, "s"@, sudo) == Ok::<HostFn, LinkError>(HostFn::DrawSector),
        resolve_spec("g"@, "sc"@, sudo) == resolve_spec("graphics"@, "set_color"@, sudo),
        resolve_spec("g"@, "sc"@, sudo) == Ok::<HostFn, LinkError>(HostFn::SetColor),
        resolve_spec("g"@, "si"@, sudo) == resolve_spec("graphics"@, "draw_sub_image"@, sudo),
        resolve_spec("g"@, "si"@, sudo) == Ok::<HostFn, LinkError>(HostFn::DrawSubImage),
        resolve_spec("g"@, "t"@, sudo) == resolve_spec("graphics"@, "draw_triangle"@, sudo),
        resolve_spec("g"@, "t"@, sudo) == Ok::<HostFn, LinkError>(HostFn::DrawTriangle),
        resolve_spec("g"@, "x"@, sudo) == resolve_spec("graphics"@, "draw_text"@, sudo),
        resolve_spec("g"@, "x"@, sudo) == Ok::<HostFn, LinkError>(HostFn::DrawText),
        resolve_spec("i"@, "p"@, sudo) == resolve_spec("input"@, "read_pad"@, sudo),
        resolve_spec("i"@, "p"@, sudo) == Ok::<HostFn, LinkError>(HostFn::ReadPad),
        resolve_spec("i"@, "b"@, sudo) == resolve_spec("input"@, "read_buttons"@, sudo),
        resolve_spec("i"@, "b"@, sudo) == Ok::<HostFn, LinkError>(HostFn::ReadButtons),
        resolve_spec("n"@, "l"@, sudo) == resolve_spec("net"@, "load_stash"@, sudo),
        resolve_spec("n"@, "l"@, sudo) == Ok::<HostFn, LinkError>(HostFn::LoadStash),
        resolve_spec("n"@, "m"@, sudo) == resolve_spec("net"@, "get_me"@, sudo),
        resolve_spec("n"@, "m"@, sudo) == Ok::<HostFn, LinkError>(HostFn::GetMe),
        resolve_spec("n"@, "p"@, sudo) == resolve_spec("net"@, "get_peers"@, sudo),
        resolve_spec("n"@, "p"@, sudo) == Ok::<HostFn, LinkError>(HostFn::GetPeers),
        resolve_spec("n"@, "s"@, sudo) == resolve_spec("net"@, "save_stash"@, sudo),
        resolve_spec("n"@, "s"@, sudo) == Ok::<HostFn, LinkError>(HostFn::SaveStash),
        resolve_spec("s"@, "p"@, sudo) == resolve_spec("stats"@, "add_progress"@, sudo),
        resolve_spec("s"@, "p"@, sudo) == Ok::<HostFn, LinkError>(HostFn::AddProgress),
        resolve_spec("s"@, "s"@, sudo) == resolve_spec("stats"@, "add_score"@, sudo),
        resolve_spec("s"@, "s"@, sudo) == Ok::<HostFn, LinkError>(HostFn::AddScore),
        resolve_spec("m"@, "d"@, sudo) == resolve_spec("misc"@, "log_debug"@, sudo),
        resolve_spec("m"@, "d"@, sudo) == Ok::<HostFn, LinkError>(HostFn::LogDebug),
        resolve_spec("m"@, "e"@, sudo) == resolve_spec("misc"@, "log_error"@, sudo),
        resolve_spec("m"@, "e"@, sudo) == Ok::<HostFn, LinkError>(HostFn::LogError),
        resolve_spec("m"@, "n"@, sudo) == resolve_spec("misc"@, "get_name"@, sudo),
        resolve_spec("m"@, "n"@, sudo) == Ok::<HostFn, LinkError>(HostFn::GetName),
        resolve_spec("m"@, "q"@, sudo) == resolve_spec("misc"@, "quit"@, sudo),
        resolve_spec("m"@, "q"@, sudo) == Ok::<HostFn, LinkError>(HostFn::Quit),
        resolve_spec("m"@, "r"@, sudo) == resolve_spec("misc"@, "get_random"@, sudo),
        resolve_spec("m"@, "r"@, sudo) == Ok::<HostFn, LinkError>(HostFn::GetRandom),
        resolve_spec("m"@, "s"@, sudo) == resolve_spec("misc"@, "set_seed"@, sudo),
        resolve_spec("m"@, "s"@, sudo) == Ok::<HostFn, LinkError>(HostFn::SetSeed),
{
    lemma_module_names();
    lemma_short_g_names();
    lemma_graphics_names();
    lemma_short_i_names();
    lemma_input_names();
    lemma_short_n_names();
    lemma_net_names();
    lemma_short_s_names();
    lemma_stats_names();
    lemma_short_m_names();
    lemma_misc_names();
}

/// Every full name resolves to its host function; those of `sudo` only
/// when `sudo` is on.
pub proof fn lemma_full_names_resolve(sudo: bool)
    ensures
        resolve_spec("graphics"@, "clear_screen"@, sudo)
            == Ok::<HostFn, LinkError>(HostFn::ClearScreen),
        resolve_spec("graphics"@, "set_color"@, sudo) == Ok::<HostFn, LinkError>(HostFn::SetColor),
        resolve_spec("graphics"@, "draw_point"@, sudo)
            == Ok::<HostFn, LinkError>(HostFn::DrawPoint),
        resolve_spec("graphics"@, "draw_line"@, sudo) == Ok::<HostFn, LinkError>(HostFn::DrawLine),
        resolve_spec("graphics"@, "draw_rect"@, sudo) == Ok::<HostFn, LinkError>(HostFn::DrawRect),
        resolve_spec("graphics"@, "draw_rounded_rect"@, sudo)
            == Ok::<HostFn, LinkError>(HostFn::DrawRoundedRect),
        resolve_spec("graphics"@, "draw_circle"@, sudo)
            == Ok::<HostFn, LinkError>(HostFn::DrawCircle),
        resolve_spec("graphics"@, "draw_ellipse"@, sudo)
            == Ok::<HostFn, LinkError>(HostFn::DrawEllipse),
        resolve_spec("graphics"@, "draw_triangle"@, sudo)
            == Ok::<HostFn, LinkError>(HostFn::DrawTriangle),
        resolve_spec("graphics"@, "draw_arc"@, sudo) == Ok::<HostFn, LinkError>(HostFn::DrawArc),
        resolve_spec("graphics"@, "draw_sector"@, sudo)
            == Ok::<HostFn, LinkError>(HostFn::DrawSector),
        resolve_spec("graphics"@, "draw_qr"@, sudo) == Ok::<HostFn, LinkError>(HostFn::DrawQr),
        resolve_spec("graphics"@, "draw_text"@, sudo) == Ok::<HostFn, LinkError>(HostFn::DrawText),
        resolve_spec("graphics"@, "draw_image"@, sudo)
            == Ok::<HostFn, LinkError>(HostFn::DrawImage),
        resolve_spec("graphics"@, "draw_sub_image"@, sudo)
            == Ok::<HostFn, LinkError>(HostFn::DrawSubImage),
        resolve_spec("graphics"@, "set_canvas"@, sudo)
            == Ok::<HostFn, LinkError>(HostFn::SetCanvas),
        resolve_spec("graphics"@, "unset_canvas"@, sudo)
            == Ok::<HostFn, LinkError>(HostFn::UnsetCanvas),
        resolve_spec("audio"@, "reset"@, sudo) == Ok::<HostFn, LinkError>(HostFn::Reset),
        resolve_spec("audio"@, "reset_all"@, sudo) == Ok::<HostFn, LinkError>(HostFn::ResetAll),
        resolve_spec("audio"@, "clear"@, sudo) == Ok::<HostFn, LinkError>(HostFn::Clear),
        resolve_spec("audio"@, "add_empty"@, sudo) == Ok::<HostFn, LinkError>(HostFn::AddEmpty),
        resolve_spec("audio"@, "add_file"@, sudo) == Ok::<HostFn, LinkError>(HostFn::AddFile),
        resolve_spec("audio"@, "add_mix"@, sudo) == Ok::<HostFn, LinkError>(HostFn::AddMix),
        resolve_spec("audio"@, "add_all_for_one"@, sudo)
            == Ok::<HostFn, LinkError>(HostFn::AddAllForOne),
        resolve_spec("audio"@, "add_gain"@, sudo) == Ok::<HostFn, LinkError>(HostFn::AddGain),
        resolve_spec("audio"@, "add_loop"@, sudo) == Ok::<HostFn, LinkError>(HostFn::AddLoop),
        resolve_spec("audio"@, "add_concat"@, sudo) == Ok::<HostFn, LinkError>(HostFn::AddConcat),
        resolve_spec("audio"@, "add_pan"@, sudo) == Ok::<HostFn, LinkError>(HostFn::AddPan),
        resolve_spec("audio"@, "add_mute"@, sudo) == Ok::<HostFn, LinkError>(HostFn::AddMute),
        resolve_spec("audio"@, "add_pause"@, sudo) == Ok::<HostFn, LinkError>(HostFn::AddPause),
        resolve_spec("audio"@, "add_track_position"@, sudo)
            == Ok::<HostFn, LinkError>(HostFn::AddTrackPosition),
        resolve_spec("audio"@, "add_low_pass"@, sudo)
            == Ok::<HostFn, LinkError>(HostFn::AddLowPass),
        resolve_spec("audio"@, "add_high_pass"@, sudo)
            == Ok::<HostFn, LinkError>(HostFn::AddHighPass),
        resolve_spec("audio"@, "add_take_left"@, sudo)
            == Ok::<HostFn, LinkError>(HostFn::AddTakeLeft),
        resolve_spec("audio"@, "add_take_right"@, sudo)
            == Ok::<HostFn, LinkError>(HostFn::AddTakeRight),
        resolve_spec("audio"@, "add_swap"@, sudo) == Ok::<HostFn, LinkError>(HostFn::AddSwap),
        resolve_spec("audio"@, "add_clip"@, sudo) == Ok::<HostFn, LinkError>(HostFn::AddClip),
        resolve_spec("audio"@, "add_noise"@, sudo) == Ok::<HostFn, LinkError>(HostFn::AddNoise),
        resolve_spec("audio"@, "add_sine"@, sudo) == Ok::<HostFn, LinkError>(HostFn::AddSine),
        resolve_spec("audio"@, "add_square"@, sudo) == Ok::<HostFn, LinkError>(HostFn::AddSquare),
        resolve_spec("audio"@, "add_sawtooth"@, sudo)
            == Ok::<HostFn, LinkError>(HostFn::AddSawtooth),
        resolve_spec("audio"@, "add_triangle"@, sudo)
            == Ok::<HostFn, LinkError>(HostFn::AddTriangle),
        resolve_spec("audio"@, "add_zero"@, sudo) == Ok::<HostFn, LinkError>(HostFn::AddZero),
        resolve_spec("audio"@, "mod_linear"@, sudo) == Ok::<HostFn, LinkError>(HostFn::ModLinear),
        resolve_spec("audio"@, "mod_hold"@, sudo) == Ok::<HostFn, LinkError>(HostFn::ModHold),
        resolve_spec("audio"@, "mod_sine"@, sudo) == Ok::<HostFn, LinkError>(HostFn::ModSine),
        resolve_spec("input"@, "read_pad"@, sudo) == Ok::<HostFn, LinkError>(HostFn::ReadPad),
        resolve_spec("input"@, "read_buttons"@, sudo)
            == Ok::<HostFn, LinkError>(HostFn::ReadButtons),
        resolve_spec("menu"@, "add_menu_item"@, sudo)
            == Ok::<HostFn, LinkError>(HostFn::AddMenuItem),
        resolve_spec("menu"@, "remove_menu_item"@, sudo)
            == Ok::<HostFn, LinkError>(HostFn::RemoveMenuItem),
        resolve_spec("menu"@, "open_menu"@, sudo) == Ok::<HostFn, LinkError>(HostFn::OpenMenu),
        resolve_spec("fs"@, "get_rom_file_size"@, sudo)
            == Ok::<HostFn, LinkError>(HostFn::GetRomFileSize),
        resolve_spec("fs"@, "load_rom_file"@, sudo) == Ok::<HostFn, LinkError>(HostFn::LoadRomFile),
        resolve_spec("fs"@, "get_file_size"@, sudo) == Ok::<HostFn, LinkError>(HostFn::GetFileSize),
        resolve_spec("fs"@, "load_file"@, sudo) == Ok::<HostFn, LinkError>(HostFn::LoadFile),
        resolve_spec("fs"@, "dump_file"@, sudo) == Ok::<HostFn, LinkError>(HostFn::DumpFile),
        resolve_spec("fs"@, "remove_file"@, sudo) == Ok::<HostFn, LinkError>(HostFn::RemoveFile),
        resolve_spec("net"@, "get_me"@, sudo) == Ok::<HostFn, LinkError>(HostFn::GetMe),
        resolve_spec("net"@, "get_peers"@, sudo) == Ok::<HostFn, LinkError>(HostFn::GetPeers),
        resolve_spec("net"@, "save_stash"@, sudo) == Ok::<HostFn, LinkError>(HostFn::SaveStash),
        resolve_spec("net"@, "load_stash"@, sudo) == Ok::<HostFn, LinkError>(HostFn::LoadStash),
        resolve_spec("stats"@, "add_progress"@, sudo)
            == Ok::<HostFn, LinkError>(HostFn::AddProgress),
        resolve_spec("stats"@, "add_score"@, sudo) == Ok::<HostFn, LinkError>(HostFn::AddScore),
        resolve_spec("misc"@, "log_debug"@, sudo) == Ok::<HostFn, LinkError>(HostFn::LogDebug),
        resolve_spec("misc"@, "log_error"@, sudo) == Ok::<HostFn, LinkError>(HostFn::LogError),
        resolve_spec("misc"@, "set_seed"@, sudo) == Ok::<HostFn, LinkError>(HostFn::SetSeed),
        resolve_spec("misc"@, "get_random"@, sudo) == Ok::<HostFn, LinkError>(HostFn::GetRandom),
        resolve_spec("misc"@, "get_name"@, sudo) == Ok::<HostFn, LinkError>(HostFn::GetName),
        resolve_spec("misc"@, "restart"@, sudo) == Ok::<HostFn, LinkError>(HostFn::Restart),
        resolve_spec("misc"@, "set_conn_status"@, sudo)
            == Ok::<HostFn, LinkError>(HostFn::SetConnStatus),
        resolve_spec("misc"@, "quit"@, sudo) == Ok::<HostFn, LinkError>(HostFn::Quit),
        resolve_spec("sudo"@, "list_dirs"@, sudo) == if sudo {
            Ok::<HostFn, LinkError>(HostFn::SudoListDirs)
        } else {
            Err(LinkError::UsedDisabledSudoHostFunction)
        },
        resolve_spec("sudo"@, "list_dirs_buf_size"@, sudo) == if sudo {
            Ok::<HostFn, LinkError>(HostFn::SudoListDirsBufSize)
        } else {
            Err(LinkError::UsedDisabledSudoHostFunction)
        },
        resolve_spec("sudo"@, "get_file_size"@, sudo) == if sudo {
            Ok::<HostFn, LinkError>(HostFn::SudoGetFileSize)
        } else {
            Err(LinkError::UsedDisabledSudoHostFunction)
        },
        resolve_spec("sudo"@, "load_file"@, sudo) == if sudo {
            Ok::<HostFn, LinkError>(HostFn::SudoLoadFile)
        } else {
            Err(LinkError::UsedDisabledSudoHostFunction)
        },
        resolve_spec("sudo"@, "run_app"@, sudo) == if sudo {
            Ok::<HostFn, LinkError>(HostFn::SudoRunApp)
        } else {
            Err(LinkError::UsedDisabledSudoHostFunction)
        },
        resolve_spec("wasi_snapshot_preview1"@, "environ_get"@, sudo)
            == Ok::<HostFn, LinkError>(HostFn::EnvironGet),
        resolve_spec("wasi_snapshot_preview1"@, "environ_sizes_get"@, sudo)
            == Ok::<HostFn, LinkError>(HostFn::EnvironSizesGet),
        resolve_spec("wasi_snapshot_preview1"@, "clock_time_get"@, sudo)
            == Ok::<HostFn, LinkError>(HostFn::ClockTimeGet),
        resolve_spec("wasi_snapshot_preview1"@, "fd_close"@, sudo)
            == Ok::<HostFn, LinkError>(HostFn::FdClose),
        resolve_spec("wasi_snapshot_preview1"@, "fd_read"@, sudo)
            == Ok::<HostFn, LinkError>(HostFn::FdRead),
        resolve_spec("wasi_snapshot_preview1"@, "fd_seek"@, sudo)
            == Ok::<HostFn, LinkError>(HostFn::FdSeek),
        resolve_spec("wasi_snapshot_preview1"@, "fd_write"@, sudo)
            == Ok::<HostFn, LinkError>(HostFn::FdWrite),
        resolve_spec("wasi_snapshot_preview1"@, "proc_exit"@, sudo)
            == Ok::<HostFn, LinkError>(HostFn::ProcExit),
{
    lemma_module_names();
    lemma_graphics_names();
    lemma_audio_names();
    lemma_input_names();
    lemma_menu_names();
    lemma_fs_names();
    lemma_net_names();
    lemma_stats_names();
    lemma_misc_names();
    lemma_sudo_names();
    lemma_wasip1_names();
}

proof fn lemma_module_names()
    ensures
        module_of("graphics"@) == Some(HostModule::Graphics),
        module_of("audio"@) == Some(HostModule::Audio),
        module_of("input"@) == Some(HostModule::Input),
        module_of("menu"@) == Some(HostModule::Menu),
        module_of("fs"@) == Some(HostModule::Fs),
        module_of("net"@) == Some(HostModule::Net),
        module_of("stats"@) == Some(HostModule::Stats),
        module_of("misc"@) == Some(HostModule::Misc),
        module_of("sudo"@) == Some(HostModule::Sudo),
        module_of("wasi_snapshot_preview1"@) == Some(HostModule::Wasip1),
        module_of("g"@) == Some(HostModule::ShortG),
        module_of("i"@) == Some(HostModule::ShortI),
        module_of("n"@) == Some(HostModule::ShortN),
        module_of("s"@) == Some(HostModule::ShortS),
        module_of("m"@) == Some(HostModule::ShortM),
{
    reveal_strlit("graphics");
    reveal_strlit("audio");
    reveal_strlit("input");
    reveal_strlit("menu");
    reveal_strlit("fs");
    reveal_strlit("net");
    reveal_strlit("stats");
    reveal_strlit("misc");
    reveal_strlit("sudo");
    reveal_strlit("wasi_snapshot_preview1");
    reveal_strlit("g");
    reveal_strlit("i");
    reveal_strlit("n");
    reveal_strlit("s");
    reveal_strlit("m");
    assert("graphics"@.len() == 8
        && "audio"@.len() == 5
        && "input"@.len() == 5
        && "menu"@.len() == 4
        && "fs"@.len() == 2
        && "net"@.len() == 3
        && "stats"@.len() == 5
        && "misc"@.len() == 4
        && "sudo"@.len() == 4
        && "wasi_snapshot_preview1"@.len() == 22
        && "g"@.len() == 1
        && "i"@.len() == 1
        && "n"@.len() == 1
        && "s"@.len() == 1
        && "m"@.len() == 1);
    assert("input"@[0] != "audio"@[0]
        && "stats"@[0] != "audio"@[0]
        && "stats"@[0] != "input"@[0]
        && "misc"@[1] != "menu"@[1]
        && "sudo"@[0] != "menu"@[0]
        && "sudo"@[0] != "misc"@[0]
        && "i"@[0] != "g"@[0]
        && "n"@[0] != "g"@[0]
        && "n"@[0] != "i"@[0]
        && "s"@[0] != "g"@[0]
        && "s"@[0] != "i"@[0]
        && "s"@[0] != "n"@[0]
        && "m"@[0] != "g"@[0]
        && "m"@[0] != "i"@[0]
        && "m"@[0] != "n"@[0]
        && "m"@[0] != "s"@[0]);
}

proof fn lemma_graphics_names()
    ensures
        graphics_fn("clear_screen"@) == Some(HostFn::ClearScreen),
        graphics_fn("set_color"@) == Some(HostFn::SetColor),
        graphics_fn("draw_point"@) == Some(HostFn::DrawPoint),
        graphics_fn("draw_line"@) == Some(HostFn::DrawLine),
        graphics_fn("draw_rect"@) == Some(HostFn::DrawRect),
        graphics_fn("draw_rounded_rect"@) == Some(HostFn::DrawRoundedRect),
        graphics_fn("draw_circle"@) == Some(HostFn::DrawCircle),
        graphics_fn("draw_ellipse"@) == Some(HostFn::DrawEllipse),
        graphics_fn("draw_triangle"@) == Some(HostFn::DrawTriangle),
        graphics_fn("draw_arc"@) == Some(HostFn::DrawArc),
        graphics_fn("draw_sector"@) == Some(HostFn::DrawSector),
        graphics_fn("draw_qr"@) == Some(HostFn::DrawQr),
        graphics_fn("draw_text"@) == Some(HostFn::DrawText),
        graphics_fn("draw_image"@) == Some(HostFn::DrawImage),
        graphics_fn("draw_sub_image"@) == Some(HostFn::DrawSubImage),
        graphics_fn("set_canvas"@) == Some(HostFn::SetCanvas),
        graphics_fn("unset_canvas"@) == Some(HostFn::UnsetCanvas),
{
    reveal_strlit("clear_screen");
    reveal_strlit("set_color");
    reveal_strlit("draw_point");
    reveal_strlit("draw_line");
    reveal_strlit("draw_rect");
    reveal_strlit("draw_rounded_rect");
    reveal_strlit("draw_circle");
    reveal_strlit("draw_ellipse");
    reveal_strlit("draw_triangle");
    reveal_strlit("draw_arc");
    reveal_strlit("draw_sector");
    reveal_strlit("draw_qr");
    reveal_strlit("draw_text");
    reveal_strlit("draw_image");
    reveal_strlit("draw_sub_image");
    reveal_strlit("set_canvas");
    reveal_strlit("unset_canvas");
    assert("clear_screen"@.len() == 12
        && "set_color"@.len() == 9
        && "draw_point"@.len() == 10
        && "draw_line"@.len() == 9
        && "draw_rect"@.len() == 9
        && "draw_rounded_rect"@.len() == 17
        && "draw_circle"@.len() == 11
        && "draw_ellipse"@.len() == 12
        && "draw_triangle"@.len() == 13
        && "draw_arc"@.len() == 8
        && "draw_sector"@.len() == 11
        && "draw_qr"@.len() == 7
        && "draw_text"@.len() == 9
        && "draw_image"@.len() == 10
        && "draw_sub_image"@.len() == 14
        && "set_canvas"@.len() == 10
        && "unset_canvas"@.len() == 12);
    assert("draw_line"@[0] != "set_color"@[0]
        && "draw_rect"@[0] != "set_color"@[0]
        && "draw_rect"@[5] != "draw_line"@[5]
        && "draw_ellipse"@[0] != "clear_screen"@[0]
        && "draw_sector"@[5] != "draw_circle"@[5]
        && "draw_text"@[0] != "set_color"@[0]
        && "draw_text"@[5] != "draw_line"@[5]
        && "draw_text"@[5] != "draw_rect"@[5]
        && "draw_image"@[5] != "draw_point"@[5]
        && "set_canvas"@[0] != "draw_point"@[0]
        && "set_canvas"@[0] != "draw_image"@[0]
        && "unset_canvas"@[0] != "clear_screen"@[0]
        && "unset_canvas"@[0] != "draw_ellipse"@[0]);
}

proof fn lemma_audio_names()
    ensures
        audio_fn("reset"@) == Some(HostFn::Reset),
        audio_fn("reset_all"@) == Some(HostFn::ResetAll),
        audio_fn("clear"@) == Some(HostFn::Clear),
        audio_fn("add_empty"@) == Some(HostFn::AddEmpty),
        audio_fn("add_file"@) == Some(HostFn::AddFile),
        audio_fn("add_mix"@) == Some(HostFn::AddMix),
        audio_fn("add_all_for_one"@) == Some(HostFn::AddAllForOne),
        audio_fn("add_gain"@) == Some(HostFn::AddGain),
        audio_fn("add_loop"@) == Some(HostFn::AddLoop),
        audio_fn("add_concat"@) == Some(HostFn::AddConcat),
        audio_fn("add_pan"@) == Some(HostFn::AddPan),
        audio_fn("add_mute"@) == Some(HostFn::AddMute),
        audio_fn("add_pause"@) == Some(HostFn::AddPause),
        audio_fn("add_track_position"@) == Some(HostFn::AddTrackPosition),
        audio_fn("add_low_pass"@) == Some(HostFn::AddLowPass),
        audio_fn("add_high_pass"@) == Some(HostFn::AddHighPass),
        audio_fn("add_take_left"@) == Some(HostFn::AddTakeLeft),
        audio_fn("add_take_right"@) == Some(HostFn::AddTakeRight),
        audio_fn("add_swap"@) == Some(HostFn::AddSwap),
        audio_fn("add_clip"@) == Some(HostFn::AddClip),
        audio_fn("add_noise"@) == Some(HostFn::AddNoise),
        audio_fn("add_sine"@) == Some(HostFn::AddSine),
        audio_fn("add_square"@) == Some(HostFn::AddSquare),
        audio_fn("add_sawtooth"@) == Some(HostFn::AddSawtooth),
        audio_fn("add_triangle"@) == Some(HostFn::AddTriangle),
        audio_fn("add_zero"@) == Some(HostFn::AddZero),
        audio_fn("mod_linear"@) == Some(HostFn::ModLinear),
        audio_fn("mod_hold"@) == Some(HostFn::ModHold),
        audio_fn("mod_sine"@) == Some(HostFn::ModSine),
{
    reveal_strlit("reset");
    reveal_strlit("reset_all");
    reveal_strlit("clear");
    reveal_strlit("add_empty");
    reveal_strlit("add_file");
    reveal_strlit("add_mix");
    reveal_strlit("add_all_for_one");
    reveal_strlit("add_gain");
    reveal_strlit("add_loop");
    reveal_strlit("add_concat");
    reveal_strlit("add_pan");
    reveal_strlit("add_mute");
    reveal_strlit("add_pause");
    reveal_strlit("add_track_position");
    reveal_strlit("add_low_pass");
    reveal_strlit("add_high_pass");
    reveal_strlit("add_take_left");
    reveal_strlit("add_take_right");
    reveal_strlit("add_swap");
    reveal_strlit("add_clip");
    reveal_strlit("add_noise");
    reveal_strlit("add_sine");
    reveal_strlit("add_square");
    reveal_strlit("add_sawtooth");
    reveal_strlit("add_triangle");
    reveal_strlit("add_zero");
    reveal_strlit("mod_linear");
    reveal_strlit("mod_hold");
    reveal_strlit("mod_sine");
    assert("reset"@.len() == 5
        && "reset_all"@.len() == 9
        && "clear"@.len() == 5
        && "add_empty"@.len() == 9
        && "add_file"@.len() == 8
        && "add_mix"@.len() == 7
        && "add_all_for_one"@.len() == 15
        && "add_gain"@.len() == 8
        && "add_loop"@.len() == 8
        && "add_concat"@.len() == 10
        && "add_pan"@.len() == 7
        && "add_mute"@.len() == 8
        && "add_pause"@.len() == 9
        && "add_track_position"@.len() == 18
        && "add_low_pass"@.len() == 12
        && "add_high_pass"@.len() == 13
        && "add_take_left"@.len() == 13
        && "add_take_right"@.len() == 14
        && "add_swap"@.len() == 8
        && "add_clip"@.len() == 8
        && "add_noise"@.len() == 9
        && "add_sine"@.len() == 8
        && "add_square"@.len() == 10
        && "add_sawtooth"@.len() == 12
        && "add_triangle"@.len() == 12
        && "add_zero"@.len() == 8
        && "mod_linear"@.len() == 10
        && "mod_hold"@.len() == 8
        && "mod_sine"@.len() == 8);
    assert("clear"@[0] != "reset"@[0]
        && "add_empty"@[0] != "reset_all"@[0]
        && "add_gain"@[4] != "add_file"@[4]
        && "add_loop"@[4] != "add_file"@[4]
        && "add_loop"@[4] != "add_gain"@[4]
        && "add_pan"@[4] != "add_mix"@[4]
        && "add_mute"@[4] != "add_file"@[4]
        && "add_mute"@[4] != "add_gain"@[4]
        && "add_mute"@[4] != "add_loop"@[4]
        && "add_pause"@[0] != "reset_all"@[0]
        && "add_pause"@[4] != "add_empty"@[4]
        && "add_take_left"@[4] != "add_high_pass"@[4]
        && "add_swap"@[4] != "add_file"@[4]
        && "add_swap"@[4] != "add_gain"@[4]
        && "add_swap"@[4] != "add_loop"@[4]
        && "add_swap"@[4] != "add_mute"@[4]
        && "add_clip"@[4] != "add_file"@[4]
        && "add_clip"@[4] != "add_gain"@[4]
        && "add_clip"@[4] != "add_loop"@[4]
        && "add_clip"@[4] != "add_mute"@[4]
        && "add_clip"@[4] != "add_swap"@[4]
        && "add_noise"@[0] != "reset_all"@[0]
        && "add_noise"@[4] != "add_empty"@[4]
        && "add_noise"@[4] != "add_pause"@[4]
        && "add_sine"@[4] != "add_file"@[4]
        && "add_sine"@[4] != "add_gain"@[4]
        && "add_sine"@[4] != "add_loop"@[4]
        && "add_sine"@[4] != "add_mute"@[4]
        && "add_sine"@[5] != "add_swap"@[5]
        && "add_sine"@[4] != "add_clip"@[4]
        && "add_square"@[4] != "add_concat"@[4]
        && "add_sawtooth"@[4] != "add_low_pass"@[4]
        && "add_triangle"@[4] != "add_low_pass"@[4]
        && "add_triangle"@[4] != "add_sawtooth"@[4]
        && "add_zero"@[4] != "add_file"@[4]
        && "add_zero"@[4] != "add_gain"@[4]
        && "add_zero"@[4] != "add_loop"@[4]
        && "add_zero"@[4] != "add_mute"@[4]
        && "add_zero"@[4] != "add_swap"@[4]
        && "add_zero"@[4] != "add_clip"@[4]
        && "add_zero"@[4] != "add_sine"@[4]
        && "mod_linear"@[0] != "add_concat"@[0]
        && "mod_linear"@[0] != "add_square"@[0]
        && "mod_hold"@[0] != "add_file"@[0]
        && "mod_hold"@[0] != "add_gain"@[0]
        && "mod_hold"@[0] != "add_loop"@[0]
        && "mod_hold"@[0] != "add_mute"@[0]
        && "mod_hold"@[0] != "add_swap"@[0]
        && "mod_hold"@[0] != "add_clip"@[0]
        && "mod_hold"@[0] != "add_sine"@[0]
        && "mod_hold"@[0] != "add_zero"@[0]
        && "mod_sine"@[0] != "add_file"@[0]
        && "mod_sine"@[0] != "add_gain"@[0]
        && "mod_sine"@[0] != "add_loop"@[0]
        && "mod_sine"@[0] != "add_mute"@[0]
        && "mod_sine"@[0] != "add_swap"@[0]
        && "mod_sine"@[0] != "add_clip"@[0]
        && "mod_sine"@[0] != "add_sine"@[0]
        && "mod_sine"@[0] != "add_zero"@[0]
        && "mod_sine"@[4] != "mod_hold"@[4]);
}

proof fn lemma_input_names()
    ensures
        input_fn("read_pad"@) == Some(HostFn::ReadPad),
        input_fn("read_buttons"@) == Some(HostFn::ReadButtons),
{
    reveal_strlit("read_pad");
    reveal_strlit("read_buttons");
    assert("read_pad"@.len() == 8
        && "read_buttons"@.len() == 12);
}

proof fn lemma_menu_names()
    ensures
        menu_fn("add_menu_item"@) == Some(HostFn::AddMenuItem),
        menu_fn("remove_menu_item"@) == Some(HostFn::RemoveMenuItem),
        menu_fn("open_menu"@) == Some(HostFn::OpenMenu),
{
    reveal_strlit("add_menu_item");
    reveal_strlit("remove_menu_item");
    reveal_strlit("open_menu");
    assert("add_menu_item"@.len() == 13
        && "remove_menu_item"@.len() == 16
        && "open_menu"@.len() == 9);
}

proof fn lemma_fs_names()
    ensures
        fs_fn("get_rom_file_size"@) == Some(HostFn::GetRomFileSize),
        fs_fn("load_rom_file"@) == Some(HostFn::LoadRomFile),
        fs_fn("get_file_size"@) == Some(HostFn::GetFileSize),
        fs_fn("load_file"@) == Some(HostFn::LoadFile),
        fs_fn("dump_file"@) == Some(HostFn::DumpFile),
        fs_fn("remove_file"@) == Some(HostFn::RemoveFile),
{
    reveal_strlit("get_rom_file_size");
    reveal_strlit("load_rom_file");
    reveal_strlit("get_file_size");
    reveal_strlit("load_file");
    reveal_strlit("dump_file");
    reveal_strlit("remove_file");
    assert("get_rom_file_size"@.len() == 17
        && "load_rom_file"@.len() == 13
        && "get_file_size"@.len() == 13
        && "load_file"@.len() == 9
        && "dump_file"@.len() == 9
        && "remove_file"@.len() == 11);
    assert("get_file_size"@[0] != "load_rom_file"@[0]
        && "dump_file"@[0] != "load_file"@[0]);
}

proof fn lemma_net_names()
    ensures
        net_fn("get_me"@) == Some(HostFn::GetMe),
        net_fn("get_peers"@) == Some(HostFn::GetPeers),
        net_fn("save_stash"@) == Some(HostFn::SaveStash),
        net_fn("load_stash"@) == Some(HostFn::LoadStash),
{
    reveal_strlit("get_me");
    reveal_strlit("get_peers");
    reveal_strlit("save_stash");
    reveal_strlit("load_stash");
    assert("get_me"@.len() == 6
        && "get_peers"@.len() == 9
        && "save_stash"@.len() == 10
        && "load_stash"@.len() == 10);
    assert("load_stash"@[0] != "save_stash"@[0]);
}

proof fn lemma_stats_names()
    ensures
        stats_fn("add_progress"@) == Some(HostFn::AddProgress),
        stats_fn("add_score"@) == Some(HostFn::AddScore),
{
    reveal_strlit("add_progress");
    reveal_strlit("add_score");
    assert("add_progress"@.len() == 12
        && "add_score"@.len() == 9);
}

proof fn lemma_misc_names()
    ensures
        misc_fn("log_debug"@) == Some(HostFn::LogDebug),
        misc_fn("log_error"@) == Some(HostFn::LogError),
        misc_fn("set_seed"@) == Some(HostFn::SetSeed),
        misc_fn("get_random"@) == Some(HostFn::GetRandom),
        misc_fn("get_name"@) == Some(HostFn::GetName),
        misc_fn("restart"@) == Some(HostFn::Restart),
        misc_fn("set_conn_status"@) == Some(HostFn::SetConnStatus),
        misc_fn("quit"@) == Some(HostFn::Quit),
{
    reveal_strlit("log_debug");
    reveal_strlit("log_error");
    reveal_strlit("set_seed");
    reveal_strlit("get_random");
    reveal_strlit("get_name");
    reveal_strlit("restart");
    reveal_strlit("set_conn_status");
    reveal_strlit("quit");
    assert("log_debug"@.len() == 9
        && "log_error"@.len() == 9
        && "set_seed"@.len() == 8
        && "get_random"@.len() == 10
        && "get_name"@.len() == 8
        && "restart"@.len() == 7
        && "set_conn_status"@.len() == 15
        && "quit"@.len() == 4);
    assert("log_error"@[4] != "log_debug"@[4]
        && "get_name"@[0] != "set_seed"@[0]);
}

proof fn lemma_sudo_names()
    ensures
        sudo_fn("list_dirs"@) == Some(HostFn::SudoListDirs),
        sudo_fn("list_dirs_buf_size"@) == Some(HostFn::SudoListDirsBufSize),
        sudo_fn("get_file_size"@) == Some(HostFn::SudoGetFileSize),
        sudo_fn("load_file"@) == Some(HostFn::SudoLoadFile),
        sudo_fn("run_app"@) == Some(HostFn::SudoRunApp),
{
    reveal_strlit("list_dirs");
    reveal_strlit("list_dirs_buf_size");
    reveal_strlit("get_file_size");
    reveal_strlit("load_file");
    reveal_strlit("run_app");
    assert("list_dirs"@.len() == 9
        && "list_dirs_buf_size"@.len() == 18
        && "get_file_size"@.len() == 13
        && "load_file"@.len() == 9
        && "run_app"@.len() == 7);
    assert("load_file"@[1] != "list_dirs"@[1]);
}

proof fn lemma_wasip1_names()
    ensures
        wasip1_fn("environ_get"@) == Some(HostFn::EnvironGet),
        wasip1_fn("environ_sizes_get"@) == Some(HostFn::EnvironSizesGet),
        wasip1_fn("clock_time_get"@) == Some(HostFn::ClockTimeGet),
        wasip1_fn("fd_close"@) == Some(HostFn::FdClose),
        wasip1_fn("fd_read"@) == Some(HostFn::FdRead),
        wasip1_fn("fd_seek"@) == Some(HostFn::FdSeek),
        wasip1_fn("fd_write"@) == Some(HostFn::FdWrite),
        wasip1_fn("proc_exit"@) == Some(HostFn::ProcExit),
{
    reveal_strlit("environ_get");
    reveal_strlit("environ_sizes_get");
    reveal_strlit("clock_time_get");
    reveal_strlit("fd_close");
    reveal_strlit("fd_read");
    reveal_strlit("fd_seek");
    reveal_strlit("fd_write");
    reveal_strlit("proc_exit");
    assert("environ_get"@.len() == 11
        && "environ_sizes_get"@.len() == 17
        && "clock_time_get"@.len() == 14
        && "fd_close"@.len() == 8
        && "fd_read"@.len() == 7
        && "fd_seek"@.len() == 7
        && "fd_write"@.len() == 8
        && "proc_exit"@.len() == 9);
    assert("fd_seek"@[3] != "fd_read"@[3]
        && "fd_write"@[3] != "fd_close"@[3]);
}

proof fn lemma_short_g_names()
    ensures
        short_g_fn("a"@) == Some(HostFn::DrawArc),
        short_g_fn("c"@) == Some(HostFn::DrawCircle),
        short_g_fn("ca"@) == Some(HostFn::SetCanvas),
        short_g_fn("cr"@) == Some(HostFn::UnsetCanvas),
        short_g_fn("cs"@) == Some(HostFn::ClearScreen),
        short_g_fn("e"@) == Some(HostFn::DrawEllipse),
        short_g_fn("i"@) == Some(HostFn::DrawImage),
        short_g_fn("l"@) == Some(HostFn::DrawLine),
        short_g_fn("p"@) == Some(HostFn::DrawPoint),
        short_g_fn("q"@) == Some(HostFn::DrawQr),
        short_g_fn("r"@) == Some(HostFn::DrawRect),
        short_g_fn("rr"@) == Some(HostFn::DrawRoundedRect),
        short_g_fn("s"@) == Some(HostFn::DrawSector),
        short_g_fn("sc"@) == Some(HostFn::SetColor),
        short_g_fn("si"@) == Some(HostFn::DrawSubImage),
        short_g_fn("t"@) == Some(HostFn::DrawTriangle),
        short_g_fn("x"@) == Some(HostFn::DrawText),
{
    reveal_strlit("a");
    reveal_strlit("c");
    reveal_strlit("ca");
    reveal_strlit("cr");
    reveal_strlit("cs");
    reveal_strlit("e");
    reveal_strlit("i");
    reveal_strlit("l");
    reveal_strlit("p");
    reveal_strlit("q");
    reveal_strlit("r");
    reveal_strlit("rr");
    reveal_strlit("s");
    reveal_strlit("sc");
    reveal_strlit("si");
    reveal_strlit("t");
    reveal_strlit("x");
    assert("a"@.len() == 1
        && "c"@.len() == 1
        && "ca"@.len() == 2
        && "cr"@.len() == 2
        && "cs"@.len() == 2
        && "e"@.len() == 1
        && "i"@.len() == 1
        && "l"@.len() == 1
        && "p"@.len() == 1
        && "q"@.len() == 1
        && "r"@.len() == 1
        && "rr"@.len() == 2
        && "s"@.len() == 1
        && "sc"@.len() == 2
        && "si"@.len() == 2
        && "t"@.len() == 1
        && "x"@.len() == 1);
    assert("c"@[0] != "a"@[0]
        && "cr"@[1] != "ca"@[1]
        && "cs"@[1] != "ca"@[1]
        && "cs"@[1] != "cr"@[1]
        && "e"@[0] != "a"@[0]
        && "e"@[0] != "c"@[0]
        && "i"@[0] != "a"@[0]
        && "i"@[0] != "c"@[0]
        && "i"@[0] != "e"@[0]
        && "l"@[0] != "a"@[0]
        && "l"@[0] != "c"@[0]
        && "l"@[0] != "e"@[0]
        && "l"@[0] != "i"@[0]
        && "p"@[0] != "a"@[0]
        && "p"@[0] != "c"@[0]
        && "p"@[0] != "e"@[0]
        && "p"@[0] != "i"@[0]
        && "p"@[0] != "l"@[0]
        && "q"@[0] != "a"@[0]
        && "q"@[0] != "c"@[0]
        && "q"@[0] != "e"@[0]
        && "q"@[0] != "i"@[0]
        && "q"@[0] != "l"@[0]
        && "q"@[0] != "p"@[0]
        && "r"@[0] != "a"@[0]
        && "r"@[0] != "c"@[0]
        && "r"@[0] != "e"@[0]
        && "r"@[0] != "i"@[0]
        && "r"@[0] != "l"@[0]
        && "r"@[0] != "p"@[0]
        && "r"@[0] != "q"@[0]
        && "rr"@[0] != "ca"@[0]
        && "rr"@[0] != "cr"@[0]
        && "rr"@[0] != "cs"@[0]
        && "s"@[0] != "a"@[0]
        && "s"@[0] != "c"@[0]
        && "s"@[0] != "e"@[0]
        && "s"@[0] != "i"@[0]
        && "s"@[0] != "l"@[0]
        && "s"@[0] != "p"@[0]
        && "s"@[0] != "q"@[0]
        && "s"@[0] != "r"@[0]
        && "sc"@[0] != "ca"@[0]
        && "sc"@[0] != "cr"@[0]
        && "sc"@[0] != "cs"@[0]
        && "sc"@[0] != "rr"@[0]
        && "si"@[0] != "ca"@[0]
        && "si"@[0] != "cr"@[0]
        && "si"@[0] != "cs"@[0]
        && "si"@[0] != "rr"@[0]
        && "si"@[1] != "sc"@[1]
        && "t"@[0] != "a"@[0]
        && "t"@[0] != "c"@[0]
        && "t"@[0] != "e"@[0]
        && "t"@[0] != "i"@[0]
        && "t"@[0] != "l"@[0]
        && "t"@[0] != "p"@[0]
        && "t"@[0] != "q"@[0]
        && "t"@[0] != "r"@[0]
        && "t"@[0] != "s"@[0]
        && "x"@[0] != "a"@[0]
        && "x"@[0] != "c"@[0]
        && "x"@[0] != "e"@[0]
        && "x"@[0] != "i"@[0]
        && "x"@[0] != "l"@[0]
        && "x"@[0] != "p"@[0]
        && "x"@[0] != "q"@[0]
        && "x"@[0] != "r"@[0]
        && "x"@[0] != "s"@[0]
        && "x"@[0] != "t"@[0]);
}

proof fn lemma_short_i_names()
    ensures
        short_i_fn("p"@) == Some(HostFn::ReadPad),
        short_i_fn("b"@) == Some(HostFn::ReadButtons),
{
    reveal_strlit("p");
    reveal_strlit("b");
    assert("p"@.len() == 1
        && "b"@.len() == 1);
    assert("b"@[0] != "p"@[0]);
}

proof fn lemma_short_n_names()
    ensures
        short_n_fn("l"@) == Some(HostFn::LoadStash),
        short_n_fn("m"@) == Some(HostFn::GetMe),
        short_n_fn("p"@) == Some(HostFn::GetPeers),
        short_n_fn("s"@) == Some(HostFn::SaveStash),
{
    reveal_strlit("l");
    reveal_strlit("m");
    reveal_strlit("p");
    reveal_strlit("s");
    assert("l"@.len() == 1
        && "m"@.len() == 1
        && "p"@.len() == 1
        && "s"@.len() == 1);
    assert("m"@[0] != "l"@[0]
        && "p"@[0] != "l"@[0]
        && "p"@[0] != "m"@[0]
        && "s"@[0] != "l"@[0]
        && "s"@[0] != "m"@[0]
        && "s"@[0] != "p"@[0]);
}

proof fn lemma_short_s_names()
    ensures
        short_s_fn("p"@) == Some(HostFn::AddProgress),
        short_s_fn("s"@) == Some(HostFn::AddScore),
{
    reveal_strlit("p");
    reveal_strlit("s");
    assert("p"@.len() == 1
        && "s"@.len() == 1);
    assert("s"@[0] != "p"@[0]);
}

proof fn lemma_short_m_names()
    ensures
        short_m_fn("d"@) == Some(HostFn::LogDebug),
        short_m_fn("e"@) == Some(HostFn::LogError),
        short_m_fn("n"@) == Some(HostFn::GetName),
        short_m_fn("q"@) == Some(HostFn::Quit),
        short_m_fn("r"@) == Some(HostFn::GetRandom),
        short_m_fn("s"@) == Some(HostFn::SetSeed),
{
    reveal_strlit("d");
    reveal_strlit("e");
    reveal_strlit("n");
    reveal_strlit("q");
    reveal_strlit("r");
    reveal_strlit("s");
    assert("d"@.len() == 1
        && "e"@.len() == 1
        && "n"@.len() == 1
        && "q"@.len() == 1
        && "r"@.len() == 1
        && "s"@.len() == 1);
    assert("e"@[0] != "d"@[0]
        && "n"@[0] != "d"@[0]
        && "n"@[0] != "e"@[0]
        && "q"@[0] != "d"@[0]
        && "q"@[0] != "e"@[0]
        && "q"@[0] != "n"@[0]
        && "r"@[0] != "d"@[0]
        && "r"@[0] != "e"@[0]
        && "r"@[0] != "n"@[0]
        && "r"@[0] != "q"@[0]
        && "s"@[0] != "d"@[0]
        && "s"@[0] != "e"@[0]
        && "s"@[0] != "n"@[0]
        && "s"@[0] != "q"@[0]
        && "s"@[0] != "r"@[0]);
}

} // verus!
