//! Quieting other apps while Yap records: one active session at a time,
//! which either mutes the default output device or pauses media playback,
//! and is undone when recording ends.
use vstd::prelude::*;

use crate::model_manager::{decimal, push_decimal};
use crate::text::{chars_of, owned, push_str, string_of};

verus! {

/// What Yap does with other apps' audio while it records.
#[derive(Clone, Copy, PartialEq, Eq, Debug, Structural)]
pub enum BackgroundAudioMode {
    /// Leave it alone.
    Off,
    /// Mute the default output device.
    Mute,
    /// Pause media playback.
    Pause,
}

/// A muting of the default output device: the device, whether it was muted
/// before, and whether Yap changed it.
#[derive(Clone, Copy, PartialEq, Eq, Debug, Structural)]
pub struct MuteSession {
    pub device_id: u32,
    pub previous_muted: bool,
    pub changed: bool,
}

/// A pause of media playback: whether Yap sent the play/pause key.
#[derive(Clone, Copy, PartialEq, Eq, Debug, Structural)]
pub struct PauseSession {
    pub toggled: bool,
}

/// The session in force while Yap records.
#[derive(Clone, Copy, PartialEq, Eq, Debug, Structural)]
pub enum Session {
    Mute(MuteSession),
    Pause(PauseSession),
}

/// Quiets other apps for recording in the given mode. With `Off` any
/// session in force is ended (by `finish`) instead. Otherwise, where no
/// session is in force, `start` opens one for the mode, and it is kept; a
/// session already in force is left as it is. Gives the reason where a
/// session could not be opened or ended.
pub fn begin<S: FnOnce(BackgroundAudioMode) -> Result<Session, String>, E: FnOnce(Session) -> Result<
    (),
    String,
>>(active: &mut Option<Session>, mode: BackgroundAudioMode, start: S, finish: E) -> (r: Result<
    (),
    String,
>)
    requires
        start.requires((mode,)),
        forall|s: Session| finish.requires((s,)),
    ensures
        mode == BackgroundAudioMode::Off ==> {
            &&& (*final(active)) is None
            &&& match *old(active) {
                None => r is Ok,
                Some(s) => exists|res: Result<(), String>|
                    #![trigger finish.ensures((s,), res)]
                    finish.ensures((s,), res) && r == res,
            }
        },
        mode != BackgroundAudioMode::Off && (*old(active)) is Some ==> *final(active) == *old(active)
            && r is Ok,
        mode != BackgroundAudioMode::Off && (*old(active)) is None ==> exists|
            res: Result<Session, String>,
        |
            #![trigger start.ensures((mode,), res)]
            start.ensures((mode,), res) && match res {
                Ok(s) => *final(active) == Some(s) && r is Ok,
                Err(e) => (*final(active)) is None && r == Err::<(), String>(e),
            },
{
    if mode == BackgroundAudioMode::Off {
        return end(active, finish);
    }
    if active.is_some() {
        return Ok(());
    }
    let res = start(mode);
    let ghost rv = res;
    match res {
        Ok(s) => {
            *active = Some(s);
            Ok(())
        },
        Err(e) => Err(e),
    }
}

/// Ends the session in force, if any: `finish` undoes what it changed.
/// Afterwards no session is in force. Gives the reason where undoing failed.
pub fn end<E: FnOnce(Session) -> Result<(), String>>(active: &mut Option<Session>, finish: E) -> (r:
    Result<(), String>)
    requires
        forall|s: Session| finish.requires((s,)),
    ensures
        (*final(active)) is None,
        match *old(active) {
            None => r is Ok,
            Some(s) => exists|res: Result<(), String>|
                #![trigger finish.ensures((s,), res)]
                finish.ensures((s,), res) && r == res,
        },
{
    let taken = active.take();
    match taken {
        None => Ok(()),
        Some(s) => {
            let res = finish(s);
            let ghost rv = res;
            assert(finish.ensures((s,), rv));
            res
        },
    }
}

/// The session that muting device `d`, found with mute state
/// `previous_muted`, opens: it changed the device exactly where the device
/// was not muted.
pub open spec fn mute_session_for(d: u32, previous_muted: bool) -> MuteSession {
    MuteSession { device_id: d, previous_muted, changed: !previous_muted }
}

/// What ending a mute session sets the device to, if anything: its state
/// before, where Yap changed it.
pub open spec fn mute_restore(s: MuteSession) -> Option<(u32, bool)> {
    if s.changed {
        Some((s.device_id, s.previous_muted))
    } else {
        None
    }
}

impl MuteSession {
    /// Mutes the default output device: `default_device` finds it, `get_mute`
    /// reads whether it is muted and `set_mute` sets that. A device already
    /// muted is left alone and the session records that nothing changed.
    pub fn begin<
        D: FnOnce() -> Result<u32, String>,
        G: FnOnce(u32) -> Result<bool, String>,
        M: FnOnce(u32, bool) -> Result<(), String>,
    >(default_device: D, get_mute: G, set_mute: M) -> (r: Result<MuteSession, String>)
        requires
            default_device.requires(()),
            forall|d: u32| get_mute.requires((d,)),
            forall|d: u32, m: bool| set_mute.requires((d, m)),
        ensures
            exists|dev: Result<u32, String>|
                #![trigger default_device.ensures((), dev)]
                default_device.ensures((), dev) && match dev {
                    Err(e) => r == Err::<MuteSession, String>(e),
                    Ok(d) => exists|muted: Result<bool, String>|
                        #![trigger get_mute.ensures((d,), muted)]
                        get_mute.ensures((d,), muted) && match muted {
                            Err(e) => r == Err::<MuteSession, String>(e),
                            Ok(true) => r == Ok::<MuteSession, String>(mute_session_for(d, true)),
                            Ok(false) => exists|set: Result<(), String>|
                                #![trigger set_mute.ensures((d, true), set)]
                                set_mute.ensures((d, true), set) && match set {
                                    Err(e) => r == Err::<MuteSession, String>(e),
                                    Ok(()) => r == Ok::<MuteSession, String>(
                                        mute_session_for(d, false),
                                    ),
                                },
                        },
                },
    {
        let dev = default_device();
        let ghost dv = dev;
        let d = match dev {
            Err(e) => {
                assert(default_device.ensures((), dv));
                return Err(e);
            },
            Ok(d) => d,
        };
        let muted = get_mute(d);
        let ghost mv = muted;
        assert(default_device.ensures((), dv) && get_mute.ensures((d,), mv));
        let previous = match muted {
            Err(e) => {
                return Err(e);
            },
            Ok(m) => m,
        };
        if previous {
            return Ok(MuteSession { device_id: d, previous_muted: true, changed: false });
        }
        let set = set_mute(d, true);
        let ghost sv = set;
        assert(set_mute.ensures((d, true), sv));
        match set {
            Err(e) => Err(e),
            Ok(()) => Ok(MuteSession { device_id: d, previous_muted: false, changed: true }),
        }
    }

    /// Ends a mute session: where Yap muted the device, `set_mute` puts back
    /// the state it had.
    pub fn end<M: FnOnce(u32, bool) -> Result<(), String>>(self, set_mute: M) -> (r:
        Result<(), String>)
        requires
            forall|d: u32, m: bool| set_mute.requires((d, m)),
        ensures
            mute_restore(self) is None ==> r is Ok,
            mute_restore(self) is Some ==> exists|res: Result<(), String>|
                #![trigger set_mute.ensures((self.device_id, self.previous_muted), res)]
                set_mute.ensures((self.device_id, self.previous_muted), res) && r == res,
    {
        if !self.changed {
            return Ok(());
        }
        let res = set_mute(self.device_id, self.previous_muted);
        let ghost rv = res;
        assert(set_mute.ensures((self.device_id, self.previous_muted), rv));
        res
    }
}

impl PauseSession {
    /// Pauses media playback: `press` sends the play/pause key once.
    pub fn begin<P: FnOnce() -> Result<(), String>>(press: P) -> (r: Result<PauseSession, String>)
        requires
            press.requires(()),
        ensures
            exists|res: Result<(), String>|
                #![trigger press.ensures((), res)]
                press.ensures((), res) && match res {
                    Ok(()) => r == Ok::<PauseSession, String>(PauseSession { toggled: true }),
                    Err(e) => r == Err::<PauseSession, String>(e),
                },
    {
        let res = press();
        let ghost rv = res;
        assert(press.ensures((), rv));
        match res {
            Ok(()) => Ok(PauseSession { toggled: true }),
            Err(e) => Err(e),
        }
    }

    /// Resumes media playback where the session paused it: `press` sends the
    /// play/pause key again.
    pub fn end<P: FnOnce() -> Result<(), String>>(self, press: P) -> (r:
        Result<(), String>)
        requires
            press.requires(()),
        ensures
            !self.toggled ==> r is Ok,
            self.toggled ==> exists|res: Result<(), String>|
                #![trigger press.ensures((), res)]
                press.ensures((), res) && r == res,
    {
        if !self.toggled {
            return Ok(());
        }
        let res = press();
        let ghost rv = res;
        assert(press.ensures((), rv));
        res
    }
}

impl Session {
    /// Ends a session: a mute session puts the device's mute state back with
    /// `set_mute`, a pause session resumes playback with `press`.
    pub fn end<M: FnOnce(u32, bool) -> Result<(), String>, P: FnOnce() -> Result<(), String>>(
        self,
        set_mute: M,
        press: P,
    ) -> (r: Result<(), String>)
        requires
            forall|d: u32, m: bool| set_mute.requires((d, m)),
            press.requires(()),
        ensures
            self matches Session::Mute(s) ==> (mute_restore(s) is None ==> r is Ok) && (mute_restore(
                s,
            ) is Some ==> exists|res: Result<(), String>|
                #![trigger set_mute.ensures((s.device_id, s.previous_muted), res)]
                set_mute.ensures((s.device_id, s.previous_muted), res) && r == res),
            self matches Session::Pause(s) ==> (!s.toggled ==> r is Ok) && (s.toggled ==> exists|
                res: Result<(), String>,
            |
                #![trigger press.ensures((), res)]
                press.ensures((), res) && r == res),
    {
        match self {
            Session::Mute(s) => s.end(set_mute),
            Session::Pause(s) => s.end(press),
        }
    }
}

/// Ducking and then restoring leaves the output device as it was. A
/// session opened on device `d` whose mute state was `m0` (see
/// `MuteSession::begin`) writes the mute property only where `m0` was
/// false, setting it to true; ending it (see `MuteSession::end` and
/// `Session::end`) writes `m0` back exactly where the session wrote, and
/// otherwise writes nothing, so neither step writes when `m0` was true.
pub proof fn law_mute_session_restores(device_id: u32, m0: bool)
    ensures
        mute_session_for(device_id, m0).changed == !m0,
        mute_session_for(device_id, m0).device_id == device_id,
        mute_restore(mute_session_for(device_id, m0)) == (if m0 {
            None
        } else {
            Some((device_id, m0))
        }),
{
}

/// The decimal text of a signed integer.
pub open spec fn signed_decimal(n: int) -> Seq<char> {
    if n < 0 {
        "-"@ + decimal((-n) as nat)
    } else {
        decimal(n as nat)
    }
}

fn push_signed(out: &mut Vec<char>, n: i32)
    ensures
        final(out)@ == old(out)@ + signed_decimal(n as int),
{
    if n < 0 {
        push_str(out, "-");
        let m: u64 = (0i64 - (n as i64)) as u64;
        push_decimal(out, m);
    } else {
        push_decimal(out, n as u64);
    }
    assert(final(out)@ =~= old(out)@ + signed_decimal(n as int));
}

/// The text of a boolean.
pub open spec fn bool_text(b: bool) -> Seq<char> {
    if b {
        "true"@
    } else {
        "false"@
    }
}

/// The default output device from what CoreAudio answered: the status of
/// the query and the device it gave.
pub fn default_output_device_result(status: i32, device_id: u32) -> (r: Result<u32, String>)
    ensures
        status != 0 ==> (r matches Err(m) && m@ == "failed to read default output device, OSStatus "@
            + signed_decimal(status as int)),
        status == 0 && device_id == 0 ==> (r matches Err(m) && m@
            == "default output device is unknown"@),
        status == 0 && device_id != 0 ==> r == Ok::<u32, String>(device_id),
{
    if status != 0 {
        let mut v = chars_of("failed to read default output device, OSStatus ");
        push_signed(&mut v, status);
        return Err(string_of(v.as_slice()));
    }
    if device_id == 0 {
        return Err(owned("default output device is unknown"));
    }
    Ok(device_id)
}

/// Whether a device is muted, from what CoreAudio answered: whether it has
/// a mute property, the status of the query and the value it gave.
pub fn device_mute_result(device_id: u32, has_property: bool, status: i32, muted: u32) -> (r: Result<
    bool,
    String,
>)
    ensures
        !has_property ==> (r matches Err(m) && m@ == "output device "@ + decimal(device_id as nat)
            + " does not expose a mute property"@),
        has_property && status != 0 ==> (r matches Err(m) && m@ == "failed to read output device "@
            + decimal(device_id as nat) + " mute state, OSStatus "@ + signed_decimal(status as int)),
        has_property && status == 0 ==> r == Ok::<bool, String>(muted != 0),
{
    if !has_property {
        let mut v = chars_of("output device ");
        push_decimal(&mut v, device_id as u64);
        push_str(&mut v, " does not expose a mute property");
        return Err(string_of(v.as_slice()));
    }
    if status != 0 {
        let mut v = chars_of("failed to read output device ");
        push_decimal(&mut v, device_id as u64);
        push_str(&mut v, " mute state, OSStatus ");
        push_signed(&mut v, status);
        return Err(string_of(v.as_slice()));
    }
    Ok(muted != 0)
}

/// The outcome of setting a device's mute state, from the status CoreAudio
/// answered.
pub fn set_mute_result(device_id: u32, muted: bool, status: i32) -> (r: Result<(), String>)
    ensures
        status == 0 ==> r is Ok,
        status != 0 ==> (r matches Err(m) && m@ == "failed to set output device "@ + decimal(
            device_id as nat,
        ) + " mute state to "@ + bool_text(muted) + ", OSStatus "@ + signed_decimal(status as int)),
{
    if status != 0 {
        let mut v = chars_of("failed to set output device ");
        push_decimal(&mut v, device_id as u64);
        push_str(&mut v, " mute state to ");
        if muted {
            push_str(&mut v, "true");
        } else {
            push_str(&mut v, "false");
        }
        push_str(&mut v, ", OSStatus ");
        push_signed(&mut v, status);
        return Err(string_of(v.as_slice()));
    }
    Ok(())
}

/// A four-character code as CoreAudio numbers it: the four bytes, first
/// byte most significant.
pub open spec fn fourcc_spec(b: [u8; 4]) -> int {
    b[0] as int * 0x100_0000 + b[1] as int * 0x1_0000 + b[2] as int * 0x100 + b[3] as int
}

/// The number of a four-character code.
pub fn fourcc(bytes: [u8; 4]) -> (r: u32)
    ensures
        r as int == fourcc_spec(bytes),
{
    let b0 = bytes[0];
    let b1 = bytes[1];
    let b2 = bytes[2];
    let b3 = bytes[3];
    let r = ((b0 as u32) << 24) | ((b1 as u32) << 16) | ((b2 as u32) << 8) | (b3 as u32);
    assert(r == b0 as u32 * 0x100_0000 + b1 as u32 * 0x1_0000 + b2 as u32 * 0x100 + b3 as u32)
        by (bit_vector)
        requires
            r == ((b0 as u32) << 24) | ((b1 as u32) << 16) | ((b2 as u32) << 8) | (b3 as u32),
    ;
    r
}

/// The key of an audio session on Windows: its instance identifier, or,
/// where it has none (or an empty one), its place in the session list.
pub fn session_key(identifier: Option<String>, index: i32) -> (r: String)
    ensures
        match identifier {
            Some(t) => t@.len() > 0 ==> r@ == t@,
            None => true,
        },
        (identifier is None || identifier->Some_0@.len() == 0) ==> r@ == "session-index:"@
            + signed_decimal(index as int),
{
    match identifier {
        Some(t) => {
            let tv = chars_of(t.as_str());
            if tv.len() > 0 {
                return t;
            }
        },
        None => {},
    }
    let mut v = chars_of("session-index:");
    push_signed(&mut v, index);
    string_of(v.as_slice())
}

} // verus!
