//! The settings snapshot: one immutable value holding the whole mangling
//! configuration.
//!
//! A snapshot is produced by the facade on every settings edit and captured
//! by value the instant a worker picks it up.  Value equality of snapshots
//! is what drives the debounce gate and the staleness guard, so `==` is
//! given an exact meaning over the snapshot's model.

use vstd::prelude::*;

verus! {

/// Mathematical model of a settings snapshot: the source path as a
/// character sequence, every other field as a plain value.
#[verifier::ext_equal]
pub struct SettingsModel {
    pub path: Seq<char>,
    pub mangle_video: bool,
    pub fps: u16,
    pub scale: u16,
    pub noise_amount: u8,
    pub video_bitrate: u16,
    pub mangle_audio: bool,
    pub audio_bitrate: u16,
    pub volume_multiplier: u32,
}

/// One immutable snapshot of the mangling configuration.
///
/// `path` names the source file; an empty path means no file is selected.
/// The per-track `mangle_*` flags say whether that track is degraded at
/// all; the numeric fields are the effect parameters (bitrates in kbit/s,
/// the volume multiplier as a plain factor).
#[derive(Debug)]
pub struct Settings {
    pub path: String,
    pub mangle_video: bool,
    pub fps: u16,
    pub scale: u16,
    pub noise_amount: u8,
    pub video_bitrate: u16,
    pub mangle_audio: bool,
    pub audio_bitrate: u16,
    pub volume_multiplier: u32,
}

impl View for Settings {
    type V = SettingsModel;

    open spec fn view(&self) -> SettingsModel {
        SettingsModel {
            path: self.path@,
            mangle_video: self.mangle_video,
            fps: self.fps,
            scale: self.scale,
            noise_amount: self.noise_amount,
            video_bitrate: self.video_bitrate,
            mangle_audio: self.mangle_audio,
            audio_bitrate: self.audio_bitrate,
            volume_multiplier: self.volume_multiplier,
        }
    }
}

/// The configuration a fresh session starts from: no file selected, both
/// tracks mangled, moderate effect parameters.
pub open spec fn default_settings() -> SettingsModel {
    SettingsModel {
        path: Seq::<char>::empty(),
        mangle_video: true,
        fps: 30,
        scale: 640,
        noise_amount: 50,
        video_bitrate: 250,
        mangle_audio: true,
        audio_bitrate: 1,
        volume_multiplier: 100,
    }
}

impl Default for Settings {
    fn default() -> (r: Self)
        ensures
            r@ == default_settings(),
    {
        let r = Settings {
            path: String::new(),
            mangle_video: true,
            fps: 30,
            scale: 640,
            noise_amount: 50,
            video_bitrate: 250,
            mangle_audio: true,
            audio_bitrate: 1,
            volume_multiplier: 100,
        };
        proof {
            assert(r@ =~= default_settings());
        }
        r
    }
}

impl Clone for Settings {
    fn clone(&self) -> (r: Self)
        ensures
            r == *self,
    {
        Settings {
            path: self.path.clone(),
            mangle_video: self.mangle_video,
            fps: self.fps,
            scale: self.scale,
            noise_amount: self.noise_amount,
            video_bitrate: self.video_bitrate,
            mangle_audio: self.mangle_audio,
            audio_bitrate: self.audio_bitrate,
            volume_multiplier: self.volume_multiplier,
        }
    }
}

impl PartialEq for Settings {
    fn eq(&self, other: &Settings) -> (r: bool) {
        let r = self.path == other.path && self.mangle_video == other.mangle_video
            && self.fps == other.fps && self.scale == other.scale
            && self.noise_amount == other.noise_amount
            && self.video_bitrate == other.video_bitrate
            && self.mangle_audio == other.mangle_audio
            && self.audio_bitrate == other.audio_bitrate
            && self.volume_multiplier == other.volume_multiplier;
        proof {
            if r {
                assert(self@ =~= other@);
            }
            if self@ == other@ {
                assert(self.path@ == other.path@);
            }
        }
        r
    }
}

impl vstd::std_specs::cmp::PartialEqSpecImpl for Settings {
    open spec fn obeys_eq_spec() -> bool {
        true
    }

    open spec fn eq_spec(&self, other: &Settings) -> bool {
        self@ == other@
    }
}

} // verus!
