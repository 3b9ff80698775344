use vstd::prelude::*;

use crate::clipboard::{clip_bytes, ClipboardBuffer};
use crate::error::BarrierError;
use crate::hid_report_writer::HidReport;
use crate::synergy_hid::{
    clamp_abs, consumer_bytes, kb_bytes, kb_empty, mouse_bytes, spec_key_down, spec_key_up,
    wheel_byte, AbsMouseReport, HidModel, ReportType, SynergyHid,
};

verus! {

/// Ghost shape of the actuator: screen geometry, the cached cursor
/// position, the translator, the queue of reports not yet written to
/// the endpoint, and the clipboard slot.
pub struct ActModel {
    pub width: u16,
    pub height: u16,
    pub x: u16,
    pub y: u16,
    pub hid: HidModel,
    pub pending: Seq<Seq<u8>>,
    pub clipboard: Option<Seq<u8>>,
}

/// A server coordinate mapped onto the absolute-mouse logical range by
/// the ceiling formula, never leaving that range.
pub open spec fn scale_abs_coord(v: u16, dim: u16) -> u16 {
    if dim == 0 {
        0u16
    } else {
        let s = ((v as int) * 0x7fff + dim - 1) / (dim as int);
        if s > 0x7fff {
            0x7fffu16
        } else {
            s as u16
        }
    }
}

/// Abs-mouse scaling: on the server's own screen (coordinates up to the
/// screen dimension) the emitted coordinate is exactly the ceiling of
/// `v * 0x7fff / dim`, computed as `(v * 0x7fff + dim - 1) / dim`, and
/// lies inside the logical range.
pub proof fn lemma_abs_scale(v: u16, dim: u16)
    requires
        1 <= dim,
        v <= dim,
    ensures
        scale_abs_coord(v, dim) == ((v as int) * 0x7fff + dim - 1) / (dim as int),
        0 <= scale_abs_coord(v, dim) <= 0x7fff,
{
    let s = ((v as int) * 0x7fff + dim - 1) / (dim as int);
    assert(0 <= s <= 0x7fff) by (nonlinear_arith)
        requires
            1 <= dim as int,
            0 <= v as int <= dim as int,
            s == ((v as int) * 0x7fff + dim - 1) / (dim as int),
    ;
}

/// Maps one server coordinate into the logical absolute-mouse range.
pub fn scale_coordinate(v: u16, dim: u16) -> (r: u16)
    requires
        dim >= 1,
    ensures
        r == scale_abs_coord(v, dim),
        r <= 0x7fff,
{
    let num: u64 = (v as u64) * 0x7fff + (dim as u64 - 1);
    let s: u64 = num / (dim as u64);
    if s > 0x7fff {
        0x7fff
    } else {
        s as u16
    }
}

/// A cursor coordinate moved by a relative delta, wrapping as the
/// sixteen-bit cast does.
pub open spec fn wrap_add(x: u16, d: i16) -> u16 {
    ((x as int) + (d as int)) as u16
}

/// The cursor placed at an absolute position: both the cached position
/// and the translator hold the clamped coordinates, and the one mouse
/// report goes out.
pub open spec fn spec_act_set_cursor(a: ActModel, x: u16, y: u16) -> ActModel {
    let m2 = AbsMouseReport { buttons: a.hid.mouse.buttons, x: clamp_abs(x), y: clamp_abs(y) };
    ActModel {
        x: clamp_abs(x),
        y: clamp_abs(y),
        hid: HidModel { mouse: m2, ..a.hid },
        pending: a.pending.push(seq![2u8] + mouse_bytes(m2, 0, 0)),
        ..a
    }
}

/// A relative move: applied to the cached absolute position.
pub open spec fn spec_act_move(a: ActModel, dx: i16, dy: i16) -> ActModel {
    spec_act_set_cursor(a, wrap_add(a.x, dx), wrap_add(a.y, dy))
}

/// A key press forwarded through the translator.
pub open spec fn spec_act_key_down(a: ActModel, key: u16, button: u16) -> ActModel {
    let (h2, rep) = spec_key_down(a.hid, key, button);
    ActModel { hid: h2, pending: a.pending.push(rep), ..a }
}

/// A key release forwarded through the translator.
pub open spec fn spec_act_key_up(a: ActModel, button: u16) -> ActModel {
    let (h2, rep) = spec_key_up(a.hid, button);
    ActModel { hid: h2, pending: a.pending.push(rep), ..a }
}

/// A mouse button press forwarded through the translator.
pub open spec fn spec_act_mouse_down(a: ActModel, button: i8) -> ActModel {
    let m2 = AbsMouseReport {
        buttons: (a.hid.mouse.buttons | crate::synergy_hid::spec_mouse_button_mask(button)) as u8,
        x: a.hid.mouse.x,
        y: a.hid.mouse.y,
    };
    ActModel {
        hid: HidModel { mouse: m2, ..a.hid },
        pending: a.pending.push(seq![2u8] + mouse_bytes(m2, 0, 0)),
        ..a
    }
}

/// A mouse button release forwarded through the translator.
pub open spec fn spec_act_mouse_up(a: ActModel, button: i8) -> ActModel {
    let m2 = AbsMouseReport {
        buttons: (a.hid.mouse.buttons & !crate::synergy_hid::spec_mouse_button_mask(button)) as u8,
        x: a.hid.mouse.x,
        y: a.hid.mouse.y,
    };
    ActModel {
        hid: HidModel { mouse: m2, ..a.hid },
        pending: a.pending.push(seq![2u8] + mouse_bytes(m2, 0, 0)),
        ..a
    }
}

/// A wheel event: one report with the clamped deltas, no state change.
pub open spec fn spec_act_wheel(a: ActModel, dx: i16, dy: i16) -> ActModel {
    ActModel {
        pending: a.pending.push(
            seq![2u8] + mouse_bytes(a.hid.mouse, wheel_byte(dy, a.hid.flip), wheel_byte(dx, a.hid.flip)),
        ),
        ..a
    }
}

/// The synthetic key presses for the modifiers held when focus arrives.
pub open spec fn spec_act_mods(a: ActModel, mods: Seq<u16>) -> ActModel
    decreases mods.len(),
{
    if mods.len() == 0 {
        a
    } else {
        spec_act_mods(spec_act_key_down(a, mods[0], 0), mods.skip(1))
    }
}

/// Focus arrives: the cursor lands on the scaled entry point, then each
/// modifier held on the server side is pressed, in mask-bit order.
pub open spec fn spec_act_enter(a: ActModel, x: u16, y: u16, mask: u16) -> ActModel {
    let a1 = spec_act_set_cursor(
        a,
        scale_abs_coord(x, a.width),
        scale_abs_coord(y, a.height),
    );
    spec_act_mods(a1, crate::synergy_hid::mods_of_mask(mask))
}

/// Focus leaves: one neutral report per logical device, keyboard,
/// mouse, consumer, in that order.
pub open spec fn spec_act_leave(a: ActModel) -> ActModel {
    let cleared_mouse = AbsMouseReport { buttons: 0u8, x: 0u16, y: 0u16 };
    ActModel {
        hid: HidModel { kb: kb_empty(), mouse: cleared_mouse, consumer: 0, ..a.hid },
        pending: a.pending.push(seq![1u8] + kb_bytes(kb_empty())).push(
            seq![2u8] + mouse_bytes(cleared_mouse, 0, 0),
        ).push(seq![3u8] + consumer_bytes(0)),
        ..a
    }
}

/// Whether the translator holds nothing down.
pub open spec fn hid_idle(h: HidModel) -> bool {
    crate::synergy_hid::kb_is_empty(h.kb) && h.mouse.buttons == 0 && h.consumer == 0
}

/// The keep-awake nudge: when nothing is held, the cursor steps one
/// pixel aside and back; when something is held, nothing happens.
pub open spec fn spec_jiggle(a: ActModel) -> ActModel {
    if hid_idle(a.hid) {
        let nudge: u16 = if a.x < 0x7fff {
            (a.x + 1) as u16
        } else {
            (a.x - 1) as u16
        };
        let a1 = spec_act_set_cursor(a, nudge, a.y);
        spec_act_set_cursor(a1, a.x, a.y)
    } else {
        a
    }
}

/// The adapter between the session and the HID pipeline: it owns the
/// translator and a FIFO queue of wire-ready reports.  Every input
/// event appends exactly the reports of that event, in event order, at
/// the tail; the pump takes them from the head.
pub struct UsbActuator {
    width: u16,
    height: u16,
    x: u16,
    y: u16,
    hid: SynergyHid,
    pending: Vec<HidReport>,
    clipboard: Option<ClipboardBuffer>,
}

impl View for UsbActuator {
    type V = ActModel;

    closed spec fn view(&self) -> ActModel {
        ActModel {
            width: self.width,
            height: self.height,
            x: self.x,
            y: self.y,
            hid: self.hid@,
            pending: self.pending@.map(|i: int, r: HidReport| r.bytes()),
            clipboard: match self.clipboard {
                Some(v) => Some(clip_bytes(v)),
                None => None,
            },
        }
    }
}

impl UsbActuator {
    pub closed spec fn wf(&self) -> bool {
        self.width >= 1 && self.height >= 1 && self.hid.wf() && self.x <= 0x7fff && self.y
            <= 0x7fff
    }

    /// A well-formed actuator serves a real screen: both dimensions are
    /// at least one pixel, so scaling never divides by zero.
    pub proof fn lemma_wf_dims(&self)
        requires
            self.wf(),
        ensures
            self@.width >= 1,
            self@.height >= 1,
            self@.x <= 0x7fff,
            self@.y <= 0x7fff,
    {
    }

    pub fn new(width: u16, height: u16, flip_wheel: bool) -> (r: UsbActuator)
        requires
            width >= 1,
            height >= 1,
        ensures
            r.wf(),
            r@ == (ActModel {
                width,
                height,
                x: 0u16,
                y: 0u16,
                hid: crate::synergy_hid::initial_hid(flip_wheel),
                pending: Seq::<Seq<u8>>::empty(),
                clipboard: None::<Seq<u8>>,
            }),
    {
        let r = UsbActuator {
            width,
            height,
            x: 0,
            y: 0,
            hid: SynergyHid::new(flip_wheel),
            pending: Vec::new(),
            clipboard: None,
        };
        proof {
            assert(r@.pending =~= Seq::<Seq<u8>>::empty());
        }
        r
    }

    /// Appends one translated report at the tail of the queue.
    fn send_report(&mut self, report: HidReport)
        ensures
            final(self)@ == (ActModel {
                pending: old(self)@.pending.push(report.bytes()),
                ..old(self)@
            }),
            final(self).wf() == old(self).wf(),
    {
        self.pending.push(report);
        proof {
            assert(final(self)@.pending =~= old(self)@.pending.push(report.bytes()));
        }
    }

    /// The pump side: takes the oldest queued report, preserving order.
    pub fn pop_report(&mut self) -> (r: Option<HidReport>)
        ensures
            final(self).wf() == old(self).wf(),
            old(self)@.pending.len() == 0 ==> r is None && final(self)@ == old(self)@,
            old(self)@.pending.len() > 0 ==> r is Some && (match r {
                Some(rep) => rep.bytes() == old(self)@.pending[0] && final(self)@ == (ActModel {
                    pending: old(self)@.pending.skip(1),
                    ..old(self)@
                }),
                None => false,
            }),
    {
        if self.pending.len() == 0 {
            proof {
                assert(final(self)@ =~= old(self)@);
            }
            None
        } else {
            let rep = self.pending.remove(0);
            proof {
                assert(final(self)@.pending =~= old(self)@.pending.skip(1));
            }
            Some(rep)
        }
    }

    pub fn connected(&mut self) -> (r: Result<(), BarrierError>)
        ensures
            r is Ok,
            *final(self) == *old(self),
    {
        Ok(())
    }

    pub fn disconnected(&mut self) -> (r: Result<(), BarrierError>)
        ensures
            r is Ok,
            *final(self) == *old(self),
    {
        Ok(())
    }

    pub fn get_screen_size(&self) -> (r: Result<(u16, u16), BarrierError>)
        ensures
            r == Ok::<(u16, u16), BarrierError>((self@.width, self@.height)),
    {
        Ok((self.width, self.height))
    }

    pub fn get_cursor_position(&self) -> (r: Result<(u16, u16), BarrierError>)
        ensures
            r == Ok::<(u16, u16), BarrierError>((self@.x, self@.y)),
    {
        Ok((self.x, self.y))
    }

    /// Places the cursor at an absolute logical position and queues the
    /// mouse report.
    pub fn set_cursor_position(&mut self, x: u16, y: u16) -> (r: Result<(), BarrierError>)
        requires
            old(self).wf(),
        ensures
            final(self).wf(),
            r is Ok,
            final(self)@ == spec_act_set_cursor(old(self)@, x, y),
    {
        let cx = if x > 0x7fff {
            0x7fff
        } else {
            x
        };
        let cy = if y > 0x7fff {
            0x7fff
        } else {
            y
        };
        self.x = cx;
        self.y = cy;
        let (_kind, rep) = self.hid.set_cursor_position(x, y);
        self.send_report(rep);
        Ok(())
    }

    /// Moves the cursor relative to the cached absolute position.
    pub fn move_cursor(&mut self, dx: i16, dy: i16) -> (r: Result<(), BarrierError>)
        requires
            old(self).wf(),
        ensures
            final(self).wf(),
            r is Ok,
            final(self)@ == spec_act_move(old(self)@, dx, dy),
    {
        let nx: u16 = #[verifier::truncate] ((self.x as i32 + dx as i32) as u16);
        let ny: u16 = #[verifier::truncate] ((self.y as i32 + dy as i32) as u16);
        self.set_cursor_position(nx, ny)
    }

    pub fn mouse_down(&mut self, button: i8) -> (r: Result<(), BarrierError>)
        requires
            old(self).wf(),
        ensures
            final(self).wf(),
            r is Ok,
            final(self)@ == spec_act_mouse_down(old(self)@, button),
    {
        let (_kind, rep) = self.hid.mouse_down(button);
        self.send_report(rep);
        Ok(())
    }

    pub fn mouse_up(&mut self, button: i8) -> (r: Result<(), BarrierError>)
        requires
            old(self).wf(),
        ensures
            final(self).wf(),
            r is Ok,
            final(self)@ == spec_act_mouse_up(old(self)@, button),
    {
        let (_kind, rep) = self.hid.mouse_up(button);
        self.send_report(rep);
        Ok(())
    }

    pub fn mouse_wheel(&mut self, dx: i16, dy: i16) -> (r: Result<(), BarrierError>)
        requires
            old(self).wf(),
        ensures
            final(self).wf(),
            r is Ok,
            final(self)@ == spec_act_wheel(old(self)@, dx, dy),
    {
        let (_kind, rep) = self.hid.mouse_scroll(dx, dy);
        self.send_report(rep);
        Ok(())
    }

    pub fn key_down(&mut self, key: u16, mask: u16, button: u16) -> (r: Result<(), BarrierError>)
        requires
            old(self).wf(),
        ensures
            final(self).wf(),
            r is Ok,
            final(self)@ == spec_act_key_down(old(self)@, key, button),
    {
        let (_kind, rep) = self.hid.key_down(key, mask, button);
        self.send_report(rep);
        Ok(())
    }

    /// Auto-repeat is left to the host's own repeat logic.
    pub fn key_repeat(&mut self, key: u16, mask: u16, button: u16, count: u16) -> (r: Result<
        (),
        BarrierError,
    >)
        ensures
            r is Ok,
            *final(self) == *old(self),
    {
        let _ = (key, mask, button, count);
        Ok(())
    }

    pub fn key_up(&mut self, key: u16, mask: u16, button: u16) -> (r: Result<(), BarrierError>)
        requires
            old(self).wf(),
        ensures
            final(self).wf(),
            r is Ok,
            final(self)@ == spec_act_key_up(old(self)@, button),
    {
        let (_kind, rep) = self.hid.key_up(key, mask, button);
        self.send_report(rep);
        Ok(())
    }

    /// Keeps the host awake: when nothing is held, nudge the cursor one
    /// pixel aside and back.
    pub fn jiggle(&mut self) -> (r: Result<(), BarrierError>)
        requires
            old(self).wf(),
        ensures
            final(self).wf(),
            r is Ok,
            final(self)@ == spec_jiggle(old(self)@),
    {
        if self.hid.is_empty() {
            let px = self.x;
            let py = self.y;
            let nudge: u16 = if px < 0x7fff {
                px + 1
            } else {
                px - 1
            };
            let _ = self.set_cursor_position(nudge, py);
            let _ = self.set_cursor_position(px, py);
            proof {
                assert(clamp_abs(nudge) == nudge);
                assert(clamp_abs(px) == px);
                assert(clamp_abs(py) == py);
            }
            Ok(())
        } else {
            Ok(())
        }
    }

    /// Stores the received clipboard text for the paste path to pick up.
    pub fn set_clipboard(&mut self, data: ClipboardBuffer) -> (r: Result<(), BarrierError>)
        ensures
            r is Ok,
            final(self)@ == (ActModel {
                clipboard: Some(clip_bytes(data)),
                ..old(self)@
            }),
            final(self).wf() == old(self).wf(),
    {
        self.clipboard = Some(data);
        Ok(())
    }

    /// Hands the stored clipboard text out, emptying the slot.
    pub fn take_clipboard(&mut self) -> (r: Option<ClipboardBuffer>)
        ensures
            final(self)@ == (ActModel { clipboard: None::<Seq<u8>>, ..old(self)@ }),
            final(self).wf() == old(self).wf(),
            match r {
                Some(v) => old(self)@.clipboard == Some(clip_bytes(v)),
                None => old(self)@.clipboard is None,
            },
    {
        let r = self.clipboard.take();
        r
    }

    /// Focus arrives: place the cursor on the scaled entry point, then
    /// press the modifiers the mask says are already held.
    pub fn enter(&mut self, x: u16, y: u16, mask: u16) -> (r: Result<(), BarrierError>)
        requires
            old(self).wf(),
        ensures
            final(self).wf(),
            r is Ok,
            final(self)@ == spec_act_enter(old(self)@, x, y, mask),
    {
        let sx = scale_coordinate(x, self.width);
        let sy = scale_coordinate(y, self.height);
        let _ = self.set_cursor_position(sx, sy);
        let ghost a1 = self@;
        let mods = crate::synergy_hid::modifier_mask_to_synergy(mask);
        let ghost mods_seq = mods@;
        proof {
            assert(mods_seq.skip(0) =~= mods_seq);
        }
        let mut i: usize = 0;
        while i < mods.len()
            invariant
                i <= mods@.len(),
                mods@ == mods_seq,
                self.wf(),
                spec_act_mods(a1, mods_seq) == spec_act_mods(self@, mods_seq.skip(i as int)),
            decreases mods@.len() - i,
        {
            let ghost before = self@;
            let _ = self.key_down(mods[i], 0, 0);
            proof {
                assert(mods_seq.skip(i as int)[0] == mods_seq[i as int]);
                assert(mods_seq.skip(i as int).skip(1) =~= mods_seq.skip(i as int + 1));
            }
            i += 1;
        }
        proof {
            assert(mods_seq.skip(mods_seq.len() as int) =~= Seq::<u16>::empty());
        }
        Ok(())
    }

    /// Focus leaves: neutralise all three devices, one report each.
    pub fn leave(&mut self) -> (r: Result<(), BarrierError>)
        requires
            old(self).wf(),
        ensures
            final(self).wf(),
            r is Ok,
            final(self)@ == spec_act_leave(old(self)@),
    {
        let (_k1, r1) = self.hid.clear(ReportType::Keyboard);
        self.send_report(r1);
        let (_k2, r2) = self.hid.clear(ReportType::Mouse);
        self.send_report(r2);
        let (_k3, r3) = self.hid.clear(ReportType::Consumer);
        self.send_report(r3);
        Ok(())
    }
}

/// FIFO preservation: when an event appends its reports, everything
/// already queued keeps its place ahead of them, and the new reports
/// follow in event order; together with `pop_report`, which always
/// takes the head, the pump observes reports in the order the actuator
/// calls produced them.
pub proof fn lemma_fifo_preservation(q: Seq<Seq<u8>>, added: Seq<Seq<u8>>)
    ensures
        (q + added).len() == q.len() + added.len(),
        forall|i: int| 0 <= i < q.len() ==> (q + added)[i] == q[i],
        forall|i: int| 0 <= i < added.len() ==> (q + added)[q.len() + i] == added[i],
{
}

} // verus!
