//! The pause-menu showcase recording: the scripted key presses (each key is
//! pressed on the first frame that reaches its time stamp) and the progress
//! of capturing one screenshot per frame.

use vstd::prelude::*;
use crate::text::{decimal, decimal_string};

verus! {

/// Keys the showcase script presses.
#[derive(Clone, Copy, Debug, PartialEq, Eq, Hash, Structural)]
pub enum ShowcaseKey {
    KeyP,
    KeyZ,
    KeyX,
    KeyC,
    ArrowLeft,
    ArrowRight,
    ArrowDown,
    Enter,
    PageDown,
}

pub const SHOWCASE_KEYFRAME_COUNT: usize = 35;

/// Time stamps of the scripted presses, in milliseconds.
pub open spec fn keyframe_ms() -> Seq<u32> {
    seq![
        500u32, 1350, 2250, 2500, 2900, 3150, 4000, 4250, 5200, 5400, 5600, 6450, 6650,
        6900, 7100, 7350, 7550, 7900, 8100, 9000, 9250, 9450, 9700, 9900, 10250, 10450,
        10650, 10850, 11600, 11850, 12050, 12300, 12500, 13000, 13700,
    ]
}

/// The key pressed at each time stamp.
pub open spec fn keyframe_keys() -> Seq<ShowcaseKey> {
    seq![
        ShowcaseKey::KeyP, ShowcaseKey::KeyP, ShowcaseKey::ArrowDown, ShowcaseKey::KeyZ,
        ShowcaseKey::ArrowRight, ShowcaseKey::KeyX, ShowcaseKey::ArrowDown,
        ShowcaseKey::KeyC, ShowcaseKey::ArrowRight, ShowcaseKey::ArrowRight,
        ShowcaseKey::ArrowRight, ShowcaseKey::ArrowRight, ShowcaseKey::Enter,
        ShowcaseKey::ArrowDown, ShowcaseKey::Enter, ShowcaseKey::ArrowDown,
        ShowcaseKey::Enter, ShowcaseKey::ArrowRight, ShowcaseKey::ArrowRight,
        ShowcaseKey::Enter, ShowcaseKey::ArrowLeft, ShowcaseKey::Enter,
        ShowcaseKey::ArrowDown, ShowcaseKey::Enter, ShowcaseKey::ArrowRight,
        ShowcaseKey::ArrowRight, ShowcaseKey::ArrowRight, ShowcaseKey::ArrowRight,
        ShowcaseKey::Enter, ShowcaseKey::ArrowLeft, ShowcaseKey::Enter,
        ShowcaseKey::ArrowDown, ShowcaseKey::Enter, ShowcaseKey::PageDown,
        ShowcaseKey::KeyC,
    ]
}

/// Frame on which a press at `millis` lands at `fps` frames per second,
/// rounded to the nearest frame and kept to 32 bits.
pub open spec fn event_frame(millis: u32, fps: u32) -> u32 {
    ((millis * fps + 500) / 1000) as u32
}

/// The first scripted key, from entry `i` on, that lands on `frame`.
pub open spec fn key_landing_from(frame: u32, fps: u32, i: int) -> Option<ShowcaseKey>
    decreases SHOWCASE_KEYFRAME_COUNT - i,
{
    if i < 0 || i >= SHOWCASE_KEYFRAME_COUNT {
        None
    } else if event_frame(keyframe_ms()[i], fps) == frame {
        Some(keyframe_keys()[i])
    } else {
        key_landing_from(frame, fps, i + 1)
    }
}

/// The key the script presses on capture frame `frame` at `fps` frames per
/// second, if any.
pub fn readme_demo_key_for_frame(frame: u32, fps: u32) -> (k: Option<ShowcaseKey>)
    ensures
        k == key_landing_from(frame, fps, 0),
{
    let ms: [u32; 35] = [
        500, 1350, 2250, 2500, 2900, 3150, 4000, 4250, 5200, 5400, 5600, 6450, 6650, 6900,
        7100, 7350, 7550, 7900, 8100, 9000, 9250, 9450, 9700, 9900, 10250, 10450, 10650,
        10850, 11600, 11850, 12050, 12300, 12500, 13000, 13700,
    ];
    let keys: [ShowcaseKey; 35] = [
        ShowcaseKey::KeyP, ShowcaseKey::KeyP, ShowcaseKey::ArrowDown, ShowcaseKey::KeyZ,
        ShowcaseKey::ArrowRight, ShowcaseKey::KeyX, ShowcaseKey::ArrowDown,
        ShowcaseKey::KeyC, ShowcaseKey::ArrowRight, ShowcaseKey::ArrowRight,
        ShowcaseKey::ArrowRight, ShowcaseKey::ArrowRight, ShowcaseKey::Enter,
        ShowcaseKey::ArrowDown, ShowcaseKey::Enter, ShowcaseKey::ArrowDown,
        ShowcaseKey::Enter, ShowcaseKey::ArrowRight, ShowcaseKey::ArrowRight,
        ShowcaseKey::Enter, ShowcaseKey::ArrowLeft, ShowcaseKey::Enter,
        ShowcaseKey::ArrowDown, ShowcaseKey::Enter, ShowcaseKey::ArrowRight,
        ShowcaseKey::ArrowRight, ShowcaseKey::ArrowRight, ShowcaseKey::ArrowRight,
        ShowcaseKey::Enter, ShowcaseKey::ArrowLeft, ShowcaseKey::Enter,
        ShowcaseKey::ArrowDown, ShowcaseKey::Enter, ShowcaseKey::PageDown,
        ShowcaseKey::KeyC,
    ];
    assert(ms@ =~= keyframe_ms());
    assert(keys@ =~= keyframe_keys());
    let mut i: usize = 0;
    while i < 35
        invariant
            i <= 35,
            ms@ == keyframe_ms(),
            keys@ == keyframe_keys(),
            forall|j: int| 0 <= j < 35 ==> #[trigger] ms@[j] <= 13700,
            key_landing_from(frame, fps, i as int) == key_landing_from(frame, fps, 0),
        decreases 35 - i,
    {
        let millis = ms[i];
        assert(millis <= 13700);
        assert(millis as u64 * fps as u64 <= 13700 * 0xffff_ffffu64) by (nonlinear_arith)
            requires
                millis <= 13700,
        ;
        let landing = ((millis as u64 * fps as u64 + 500) / 1000) as u32;
        if landing == frame {
            return Some(keys[i]);
        }
        i = i + 1;
    }
    None
}

/// `n` in base ten, padded with zeros to at least four digits.
pub open spec fn padded4(n: nat) -> Seq<char> {
    if n < 10 {
        "000"@ + decimal(n)
    } else if n < 100 {
        "00"@ + decimal(n)
    } else if n < 1000 {
        "0"@ + decimal(n)
    } else {
        decimal(n)
    }
}

/// Progress of a capture run: how many frames to take, which comes next,
/// how many warm-up frames remain, and where the screenshot of the current
/// frame stands.
#[derive(Clone, Copy, Debug, PartialEq, Eq, Structural)]
pub struct CaptureProgress {
    pub frame_count: u32,
    pub next_frame: u32,
    pub warmup_frames_remaining: u32,
    pub waiting_for_capture: bool,
    pub capture_started: bool,
    pub window_width: u32,
    pub window_height: u32,
}

impl CaptureProgress {
    /// A screenshot is awaited only for a frame that is still to be taken.
    pub open spec fn wf(self) -> bool {
        self.waiting_for_capture ==> self.next_frame < self.frame_count
    }

    pub open spec fn spec_complete(self) -> bool {
        self.next_frame >= self.frame_count
    }

    /// Settings read by the host (each absent when unset or unreadable):
    /// zero frame counts and window sizes fall back to the defaults, as do
    /// missing values; the run starts at frame zero.
    pub fn from_settings(
        frame_count: Option<u32>,
        warmup_frames: Option<u32>,
        window_width: Option<u32>,
        window_height: Option<u32>,
    ) -> (c: CaptureProgress)
        ensures
            c.frame_count == (match frame_count {
                Some(n) if n > 0 => n,
                _ => 60u32,
            }),
            c.warmup_frames_remaining == (match warmup_frames {
                Some(n) => n,
                None => 30u32,
            }),
            c.window_width == (match window_width {
                Some(n) if n > 0 => n,
                _ => 1180u32,
            }),
            c.window_height == (match window_height {
                Some(n) if n > 0 => n,
                _ => 760u32,
            }),
            c.next_frame == 0,
            !c.waiting_for_capture,
            !c.capture_started,
            c.wf(),
    {
        CaptureProgress {
            frame_count: match frame_count {
                Some(n) if n > 0 => n,
                _ => 60,
            },
            next_frame: 0,
            warmup_frames_remaining: match warmup_frames {
                Some(n) => n,
                None => 30,
            },
            waiting_for_capture: false,
            capture_started: false,
            window_width: match window_width {
                Some(n) if n > 0 => n,
                _ => 1180,
            },
            window_height: match window_height {
                Some(n) if n > 0 => n,
                _ => 760,
            },
        }
    }

    pub fn window_resolution(&self) -> (r: (u32, u32))
        ensures
            r == (self.window_width, self.window_height),
    {
        (self.window_width, self.window_height)
    }

    /// Whether every frame has been taken.
    pub fn is_complete(&self) -> (b: bool)
        ensures
            b == self.spec_complete(),
    {
        self.next_frame >= self.frame_count
    }

    /// File name of the current frame's screenshot: `frame_0007.png`.
    pub fn current_frame_name(&self) -> (s: String)
        ensures
            s@ == "frame_"@ + padded4(self.next_frame as nat) + ".png"@,
    {
        let digits = decimal_string(self.next_frame as u64);
        let padded = if self.next_frame < 10 {
            String::from_str("000").concat(digits.as_str())
        } else if self.next_frame < 100 {
            String::from_str("00").concat(digits.as_str())
        } else if self.next_frame < 1000 {
            String::from_str("0").concat(digits.as_str())
        } else {
            digits
        };
        String::from_str("frame_").concat(padded.as_str()).concat(".png")
    }

    /// One frame of the request step: while frames remain and no
    /// screenshot is awaited, warm-up frames are spent first; after that a
    /// screenshot is requested (the result says so) and awaited.
    pub fn request_frame(&mut self) -> (shoot: bool)
        requires
            old(self).wf(),
        ensures
            final(self).wf(),
            shoot == (!old(self).spec_complete() && !old(self).waiting_for_capture
                && old(self).warmup_frames_remaining == 0),
            !old(self).spec_complete() && !old(self).waiting_for_capture
                && old(self).warmup_frames_remaining > 0 ==> *final(self) == (CaptureProgress {
                warmup_frames_remaining: (old(self).warmup_frames_remaining - 1) as u32,
                ..*old(self)
            }),
            shoot ==> *final(self) == (CaptureProgress {
                waiting_for_capture: true,
                capture_started: false,
                ..*old(self)
            }),
            old(self).spec_complete() || old(self).waiting_for_capture ==> *final(self) == *old(
                self,
            ),
    {
        if self.is_complete() || self.waiting_for_capture {
            return false;
        }
        if self.warmup_frames_remaining > 0 {
            self.warmup_frames_remaining = self.warmup_frames_remaining - 1;
            return false;
        }
        self.waiting_for_capture = true;
        self.capture_started = false;
        true
    }

    /// One frame of the advance step. The first frame after a request only
    /// marks the capture as started; once `saved` (the screenshot has been
    /// written) the run moves to the next frame. Returns whether the run has
    /// just taken its last frame.
    pub fn advance_frame(&mut self, saved: bool) -> (finished: bool)
        requires
            old(self).wf(),
        ensures
            final(self).wf(),
            !old(self).waiting_for_capture ==> *final(self) == *old(self) && !finished,
            old(self).waiting_for_capture && !old(self).capture_started ==> *final(self) == (
            CaptureProgress { capture_started: true, ..*old(self) }) && !finished,
            old(self).waiting_for_capture && old(self).capture_started && !saved ==> *final(self)
                == *old(self) && !finished,
            old(self).waiting_for_capture && old(self).capture_started && saved ==> *final(self)
                == (CaptureProgress {
                waiting_for_capture: false,
                next_frame: (old(self).next_frame + 1) as u32,
                ..*old(self)
            }) && finished == final(self).spec_complete(),
    {
        if !self.waiting_for_capture {
            return false;
        }
        if !self.capture_started {
            self.capture_started = true;
            return false;
        }
        if !saved {
            return false;
        }
        self.waiting_for_capture = false;
        self.next_frame = self.next_frame + 1;
        self.is_complete()
    }
}

} // verus!
