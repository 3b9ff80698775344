use vstd::prelude::*;

use crate::hid_report_writer::HidReport;
use crate::packet::{lsb16, msb16};

verus! {

/// Which of the three logical HID devices a report belongs to.
#[derive(Copy, Clone, Debug, PartialEq, Eq, Structural)]
pub enum ReportType {
    Keyboard,
    Mouse,
    Consumer,
}

impl ReportType {
    /// Bytes of a full report of this kind, report ID included.
    pub fn get_report_size(&self) -> (r: usize)
        ensures
            r == match self {
                ReportType::Keyboard => 9int,
                ReportType::Mouse => 8int,
                ReportType::Consumer => 3int,
            },
    {
        match self {
            ReportType::Keyboard => 9,
            ReportType::Mouse => 8,
            ReportType::Consumer => 3,
        }
    }

    /// The largest report any of the three devices produces.
    pub fn get_max_report_size() -> (r: usize)
        ensures
            r == 9,
    {
        9
    }

    /// The report-ID byte that prefixes reports of this kind.
    pub fn report_id(&self) -> (r: u8)
        ensures
            r == match self {
                ReportType::Keyboard => 1u8,
                ReportType::Mouse => 2u8,
                ReportType::Consumer => 3u8,
            },
    {
        match self {
            ReportType::Keyboard => 1,
            ReportType::Mouse => 2,
            ReportType::Consumer => 3,
        }
    }
}

/// What a Synergy key code translates to.
#[derive(Copy, Clone, Debug, PartialEq, Eq, Structural)]
pub enum KeyCode {
    /// No HID equivalent.
    Unmapped,
    /// A keyboard usage code.
    Key(u8),
    /// A consumer-control usage code.
    Consumer(u16),
}

/// The static key table: Synergy key codes (ASCII for printable keys,
/// the 0xEFxx control plane, the 0xE0xx consumer plane) to HID usages.
pub open spec fn key_map(key: u16) -> KeyCode {
    if key == 0 {
        KeyCode::Unmapped
    } else if 0x61 <= key <= 0x7a {  // 'a'..'z'
        KeyCode::Key((key - 0x61 + 0x04) as u8)
    } else if 0x41 <= key <= 0x5a {  // 'A'..'Z'
        KeyCode::Key((key - 0x41 + 0x04) as u8)
    } else if 0x31 <= key <= 0x39 {  // '1'..'9'
        KeyCode::Key((key - 0x31 + 0x1e) as u8)
    } else if key == 0x30 {  // '0'
        KeyCode::Key(0x27)
    } else if key == 0x20 {  // space
        KeyCode::Key(0x2c)
    } else if key == 0x2d {  // '-'
        KeyCode::Key(0x2d)
    } else if key == 0x3d {  // '='
        KeyCode::Key(0x2e)
    } else if key == 0x5b {  // '['
        KeyCode::Key(0x2f)
    } else if key == 0x5d {  // ']'
        KeyCode::Key(0x30)
    } else if key == 0x5c {  // '\\'
        KeyCode::Key(0x31)
    } else if key == 0x3b {  // ';'
        KeyCode::Key(0x33)
    } else if key == 0x27 {  // '\''
        KeyCode::Key(0x34)
    } else if key == 0x60 {  // '`'
        KeyCode::Key(0x35)
    } else if key == 0x2c {  // ','
        KeyCode::Key(0x36)
    } else if key == 0x2e {  // '.'
        KeyCode::Key(0x37)
    } else if key == 0x2f {  // '/'
        KeyCode::Key(0x38)
    } else if key == 0xef08 {  // backspace
        KeyCode::Key(0x2a)
    } else if key == 0xef09 {  // tab
        KeyCode::Key(0x2b)
    } else if key == 0xef0d {  // return
        KeyCode::Key(0x28)
    } else if key == 0xef1b {  // escape
        KeyCode::Key(0x29)
    } else if key == 0xefff {  // delete
        KeyCode::Key(0x4c)
    } else if key == 0xef50 {  // home
        KeyCode::Key(0x4a)
    } else if key == 0xef51 {  // left
        KeyCode::Key(0x50)
    } else if key == 0xef52 {  // up
        KeyCode::Key(0x52)
    } else if key == 0xef53 {  // right
        KeyCode::Key(0x4f)
    } else if key == 0xef54 {  // down
        KeyCode::Key(0x51)
    } else if key == 0xef55 {  // page up
        KeyCode::Key(0x4b)
    } else if key == 0xef56 {  // page down
        KeyCode::Key(0x4e)
    } else if key == 0xef57 {  // end
        KeyCode::Key(0x4d)
    } else if key == 0xef63 {  // insert
        KeyCode::Key(0x49)
    } else if 0xefbe <= key <= 0xefc9 {  // F1..F12
        KeyCode::Key((key - 0xefbe + 0x3a) as u8)
    } else if key == 0xefe1 {  // left shift
        KeyCode::Key(0xe1)
    } else if key == 0xefe2 {  // right shift
        KeyCode::Key(0xe5)
    } else if key == 0xefe3 {  // left control
        KeyCode::Key(0xe0)
    } else if key == 0xefe4 {  // right control
        KeyCode::Key(0xe4)
    } else if key == 0xefe5 {  // caps lock
        KeyCode::Key(0x39)
    } else if key == 0xefe7 {  // left meta
        KeyCode::Key(0xe3)
    } else if key == 0xefe8 {  // right meta
        KeyCode::Key(0xe7)
    } else if key == 0xefe9 {  // left alt
        KeyCode::Key(0xe2)
    } else if key == 0xefea {  // right alt
        KeyCode::Key(0xe6)
    } else if key == 0xefeb {  // left super
        KeyCode::Key(0xe3)
    } else if key == 0xefec {  // right super
        KeyCode::Key(0xe7)
    } else if key == 0xe0ad {  // audio mute
        KeyCode::Consumer(0x00e2)
    } else if key == 0xe0ae {  // audio volume down
        KeyCode::Consumer(0x00ea)
    } else if key == 0xe0af {  // audio volume up
        KeyCode::Consumer(0x00e9)
    } else {
        KeyCode::Unmapped
    }
}

/// Translates one Synergy key code through the static key table.
pub fn synergy_to_hid(key: u16) -> (r: KeyCode)
    ensures
        r == key_map(key),
{
    if key == 0 {
        KeyCode::Unmapped
    } else if 0x61 <= key && key <= 0x7a {
        KeyCode::Key((key - 0x61 + 0x04) as u8)
    } else if 0x41 <= key && key <= 0x5a {
        KeyCode::Key((key - 0x41 + 0x04) as u8)
    } else if 0x31 <= key && key <= 0x39 {
        KeyCode::Key((key - 0x31 + 0x1e) as u8)
    } else if key == 0x30 {
        KeyCode::Key(0x27)
    } else if key == 0x20 {
        KeyCode::Key(0x2c)
    } else if key == 0x2d {
        KeyCode::Key(0x2d)
    } else if key == 0x3d {
        KeyCode::Key(0x2e)
    } else if key == 0x5b {
        KeyCode::Key(0x2f)
    } else if key == 0x5d {
        KeyCode::Key(0x30)
    } else if key == 0x5c {
        KeyCode::Key(0x31)
    } else if key == 0x3b {
        KeyCode::Key(0x33)
    } else if key == 0x27 {
        KeyCode::Key(0x34)
    } else if key == 0x60 {
        KeyCode::Key(0x35)
    } else if key == 0x2c {
        KeyCode::Key(0x36)
    } else if key == 0x2e {
        KeyCode::Key(0x37)
    } else if key == 0x2f {
        KeyCode::Key(0x38)
    } else if key == 0xef08 {
        KeyCode::Key(0x2a)
    } else if key == 0xef09 {
        KeyCode::Key(0x2b)
    } else if key == 0xef0d {
        KeyCode::Key(0x28)
    } else if key == 0xef1b {
        KeyCode::Key(0x29)
    } else if key == 0xefff {
        KeyCode::Key(0x4c)
    } else if key == 0xef50 {
        KeyCode::Key(0x4a)
    } else if key == 0xef51 {
        KeyCode::Key(0x50)
    } else if key == 0xef52 {
        KeyCode::Key(0x52)
    } else if key == 0xef53 {
        KeyCode::Key(0x4f)
    } else if key == 0xef54 {
        KeyCode::Key(0x51)
    } else if key == 0xef55 {
        KeyCode::Key(0x4b)
    } else if key == 0xef56 {
        KeyCode::Key(0x4e)
    } else if key == 0xef57 {
        KeyCode::Key(0x4d)
    } else if key == 0xef63 {
        KeyCode::Key(0x49)
    } else if 0xefbe <= key && key <= 0xefc9 {
        KeyCode::Key((key - 0xefbe + 0x3a) as u8)
    } else if key == 0xefe1 {
        KeyCode::Key(0xe1)
    } else if key == 0xefe2 {
        KeyCode::Key(0xe5)
    } else if key == 0xefe3 {
        KeyCode::Key(0xe0)
    } else if key == 0xefe4 {
        KeyCode::Key(0xe4)
    } else if key == 0xefe5 {
        KeyCode::Key(0x39)
    } else if key == 0xefe7 {
        KeyCode::Key(0xe3)
    } else if key == 0xefe8 {
        KeyCode::Key(0xe7)
    } else if key == 0xefe9 {
        KeyCode::Key(0xe2)
    } else if key == 0xefea {
        KeyCode::Key(0xe6)
    } else if key == 0xefeb {
        KeyCode::Key(0xe3)
    } else if key == 0xefec {
        KeyCode::Key(0xe7)
    } else if key == 0xe0ad {
        KeyCode::Consumer(0x00e2)
    } else if key == 0xe0ae {
        KeyCode::Consumer(0x00ea)
    } else if key == 0xe0af {
        KeyCode::Consumer(0x00e9)
    } else {
        KeyCode::Unmapped
    }
}

/// HID button bit for a Synergy mouse button number: buttons one to
/// three map to bits zero to two, everything else is ignored.
pub open spec fn spec_mouse_button_mask(b: i8) -> u8 {
    if b == 1 {
        1u8
    } else if b == 2 {
        2u8
    } else if b == 3 {
        4u8
    } else {
        0u8
    }
}

/// Maps a Synergy mouse button number onto its HID button bit.
pub fn synergy_mouse_button(b: i8) -> (r: u8)
    ensures
        r == spec_mouse_button_mask(b),
{
    if b == 1 {
        1
    } else if b == 2 {
        2
    } else if b == 3 {
        4
    } else {
        0
    }
}

/// The modifier bits of a cursor-enter mask, each with the Synergy key
/// code it stands for, in ascending bit order: shift, control, alt,
/// meta, super.
pub open spec fn mods_of_mask(mask: u16) -> Seq<u16> {
    let s0 = Seq::<u16>::empty();
    let s1 = if mask & 0x0002 != 0 {
        s0.push(0xefe1u16)
    } else {
        s0
    };
    let s2 = if mask & 0x0004 != 0 {
        s1.push(0xefe3u16)
    } else {
        s1
    };
    let s3 = if mask & 0x0008 != 0 {
        s2.push(0xefe9u16)
    } else {
        s2
    };
    let s4 = if mask & 0x0010 != 0 {
        s3.push(0xefe7u16)
    } else {
        s3
    };
    if mask & 0x0020 != 0 {
        s4.push(0xefebu16)
    } else {
        s4
    }
}

/// Decomposes a cursor-enter modifier mask into the key codes held when
/// focus arrives: exactly the modifiers whose bit is set, in ascending
/// bit order.
pub fn modifier_mask_to_synergy(mask: u16) -> (r: Vec<u16>)
    ensures
        r@ == mods_of_mask(mask),
        r@.contains(0xefe1u16) <==> mask & 0x0002 != 0,
        r@.contains(0xefe3u16) <==> mask & 0x0004 != 0,
        r@.contains(0xefe9u16) <==> mask & 0x0008 != 0,
        r@.contains(0xefe7u16) <==> mask & 0x0010 != 0,
        r@.contains(0xefebu16) <==> mask & 0x0020 != 0,
{
    let mut r: Vec<u16> = Vec::new();
    if mask & 0x0002 != 0 {
        r.push(0xefe1);
    }
    if mask & 0x0004 != 0 {
        r.push(0xefe3);
    }
    if mask & 0x0008 != 0 {
        r.push(0xefe9);
    }
    if mask & 0x0010 != 0 {
        r.push(0xefe7);
    }
    if mask & 0x0020 != 0 {
        r.push(0xefeb);
    }
    proof {
        broadcast use vstd::seq_lib::lemma_seq_contains_after_push;

        assert(r@ =~= mods_of_mask(mask));
        assert(!Seq::<u16>::empty().contains(0xefe1u16));
        assert(!Seq::<u16>::empty().contains(0xefe3u16));
        assert(!Seq::<u16>::empty().contains(0xefe9u16));
        assert(!Seq::<u16>::empty().contains(0xefe7u16));
        assert(!Seq::<u16>::empty().contains(0xefebu16));
    }
    r
}

/// Ghost shape of the keyboard report: the modifier bits and six slots.
pub struct KbModel {
    pub modifier: u8,
    pub keys: Seq<u8>,
}

/// The keyboard state with nothing held.
pub open spec fn kb_empty() -> KbModel {
    KbModel { modifier: 0, keys: seq![0u8, 0, 0, 0, 0, 0] }
}

/// HID usages 0xE0 through 0xE7 are the eight modifier keys.
pub open spec fn is_hid_modifier(k: u8) -> bool {
    0xe0 <= k <= 0xe7
}

/// The modifier byte's bit for one modifier usage.
pub open spec fn mod_bit(k: u8) -> u8 {
    1u8 << (k - 0xe0) as u8
}

/// The six key slots with `k` placed in the first free one; a full
/// report discards the press.
pub open spec fn set_first_zero(keys: Seq<u8>, k: u8, i: int) -> Seq<u8>
    decreases keys.len() - i,
        when 0 <= i <= keys.len()
{
    if i < 0 || i >= keys.len() {
        keys
    } else if keys[i] == 0 {
        keys.update(i, k)
    } else {
        set_first_zero(keys, k, i + 1)
    }
}

/// The key slots with every copy of `k` released.
pub open spec fn zero_matching(keys: Seq<u8>, k: u8) -> Seq<u8> {
    keys.map(|i: int, v: u8| if v == k { 0u8 } else { v })
}

/// One key pressed: modifiers set their bit, a key already held changes
/// nothing, and otherwise the first free slot takes it.
pub open spec fn spec_kb_press(s: KbModel, k: u8) -> KbModel {
    if is_hid_modifier(k) {
        KbModel { modifier: s.modifier | mod_bit(k), keys: s.keys }
    } else if s.keys.contains(k) {
        s
    } else {
        KbModel { modifier: s.modifier, keys: set_first_zero(s.keys, k, 0) }
    }
}

/// One key released: modifiers clear their bit, others leave their slots.
pub open spec fn spec_kb_release(s: KbModel, k: u8) -> KbModel {
    if is_hid_modifier(k) {
        KbModel { modifier: (s.modifier & !mod_bit(k)) as u8, keys: s.keys }
    } else {
        KbModel { modifier: s.modifier, keys: zero_matching(s.keys, k) }
    }
}

/// The eight report bytes of the keyboard state (no report ID).
pub open spec fn kb_bytes(s: KbModel) -> Seq<u8> {
    seq![s.modifier, 0u8] + s.keys
}

/// No modifier bit set and no key slot occupied.
pub open spec fn kb_is_empty(s: KbModel) -> bool {
    s.modifier == 0 && forall|i: int| 0 <= i < s.keys.len() ==> s.keys[i] == 0
}

/// Whether one of the key slots holds `k`.
fn has_key(keys: &Vec<u8>, k: u8) -> (r: bool)
    ensures
        r == keys@.contains(k),
{
    let n = keys.len();
    let mut i: usize = 0;
    while i < n
        invariant
            i <= n,
            n == keys@.len(),
            forall|j: int| 0 <= j < i ==> keys@[j] != k,
        decreases n - i,
    {
        if keys[i] == k {
            assert(keys@[i as int] == k);
            return true;
        }
        i += 1;
    }
    assert(!keys@.contains(k));
    false
}

/// Puts `k` into the first free slot, if any is left.
fn place_first_zero(keys: &mut Vec<u8>, k: u8)
    requires
        old(keys)@.len() == 6,
    ensures
        final(keys)@ == set_first_zero(old(keys)@, k, 0),
        final(keys)@.len() == 6,
{
    let ghost keys0 = keys@;
    let mut i: usize = 0;
    while i < 6
        invariant
            i <= 6,
            keys0 == old(keys)@,
            keys@ == keys0,
            keys0.len() == 6,
            forall|j: int| 0 <= j < i ==> keys0[j] != 0,
            set_first_zero(keys0, k, 0) == set_first_zero(keys0, k, i as int),
        decreases 6 - i,
    {
        if keys[i] == 0 {
            proof {
                assert(keys0[i as int] == 0);
                assert(set_first_zero(keys0, k, i as int) == keys0.update(i as int, k));
            }
            keys.set(i, k);
            assert(keys@ == keys0.update(i as int, k));
            return ;
        }
        assert(set_first_zero(keys0, k, i as int) == set_first_zero(keys0, k, i as int + 1));
        i += 1;
    }
}

/// The keyboard report buffer: a modifier byte and six key slots.
#[derive(Debug)]
pub struct KeyboardReport {
    modifier: u8,
    keys: Vec<u8>,
}

impl View for KeyboardReport {
    type V = KbModel;

    closed spec fn view(&self) -> KbModel {
        KbModel { modifier: self.modifier, keys: self.keys@ }
    }
}

impl KeyboardReport {
    pub closed spec fn wf(&self) -> bool {
        self.keys@.len() == 6
    }

    pub fn new() -> (r: KeyboardReport)
        ensures
            r.wf(),
            r@ == kb_empty(),
    {
        let mut keys: Vec<u8> = Vec::new();
        keys.push(0);
        keys.push(0);
        keys.push(0);
        keys.push(0);
        keys.push(0);
        keys.push(0);
        let r = KeyboardReport { modifier: 0, keys };
        proof {
            assert(r@.keys =~= kb_empty().keys);
        }
        r
    }

    /// The current state as a wire-ready report under ID 1.
    pub fn report(&self) -> (r: HidReport)
        requires
            self.wf(),
        ensures
            r is Keyboard,
            r.bytes() == seq![1u8] + kb_bytes(self@),
    {
        let d: [u8; 8] = [
            self.modifier,
            0,
            self.keys[0],
            self.keys[1],
            self.keys[2],
            self.keys[3],
            self.keys[4],
            self.keys[5],
        ];
        proof {
            assert(d@ =~= kb_bytes(self@));
        }
        HidReport::keyboard(d)
    }

    /// Presses one HID usage and reports the new state.
    pub fn press(&mut self, k: u8) -> (r: HidReport)
        requires
            old(self).wf(),
        ensures
            final(self).wf(),
            final(self)@ == spec_kb_press(old(self)@, k),
            r is Keyboard,
            r.bytes() == seq![1u8] + kb_bytes(final(self)@),
    {
        if 0xe0 <= k && k <= 0xe7 {
            self.modifier = self.modifier | (1u8 << (k - 0xe0));
        } else {
            let present = has_key(&self.keys, k);
            if !present {
                place_first_zero(&mut self.keys, k);
            }
        }
        self.report()
    }

    /// Releases one HID usage and reports the new state.
    pub fn release(&mut self, k: u8) -> (r: HidReport)
        requires
            old(self).wf(),
        ensures
            final(self).wf(),
            final(self)@ == spec_kb_release(old(self)@, k),
            r is Keyboard,
            r.bytes() == seq![1u8] + kb_bytes(final(self)@),
    {
        if 0xe0 <= k && k <= 0xe7 {
            self.modifier = self.modifier & !(1u8 << (k - 0xe0));
        } else {
            let ghost keys0 = self.keys@;
            let mut i: usize = 0;
            while i < 6
                invariant
                    i <= 6,
                    self.modifier == old(self).modifier,
                    self.keys@.len() == 6,
                    keys0.len() == 6,
                    forall|j: int| 0 <= j < i ==> self.keys@[j] == (if keys0[j] == k {
                        0u8
                    } else {
                        keys0[j]
                    }),
                    forall|j: int| i <= j < 6 ==> self.keys@[j] == keys0[j],
                decreases 6 - i,
            {
                if self.keys[i] == k {
                    self.keys.set(i, 0);
                }
                i += 1;
            }
            proof {
                assert(self.keys@ =~= zero_matching(keys0, k));
            }
        }
        self.report()
    }

    /// Releases everything and reports the empty state.
    pub fn clear(&mut self) -> (r: HidReport)
        requires
            old(self).wf(),
        ensures
            final(self).wf(),
            final(self)@ == kb_empty(),
            r is Keyboard,
            r.bytes() == seq![1u8] + kb_bytes(kb_empty()),
    {
        self.modifier = 0;
        let mut i: usize = 0;
        while i < 6
            invariant
                i <= 6,
                self.modifier == 0,
                self.keys@.len() == 6,
                forall|j: int| 0 <= j < i ==> self.keys@[j] == 0,
            decreases 6 - i,
        {
            self.keys.set(i, 0);
            i += 1;
        }
        proof {
            assert(self@.keys =~= kb_empty().keys);
        }
        self.report()
    }

    /// Whether nothing is held.
    pub fn is_empty(&self) -> (r: bool)
        requires
            self.wf(),
        ensures
            r == kb_is_empty(self@),
    {
        if self.modifier != 0 {
            return false;
        }
        let mut i: usize = 0;
        while i < 6
            invariant
                i <= 6,
                self.wf(),
                self.modifier == 0,
                forall|j: int| 0 <= j < i ==> self@.keys[j] == 0,
            decreases 6 - i,
        {
            if self.keys[i] != 0 {
                proof {
                    assert(self@.keys[i as int] != 0);
                }
                return false;
            }
            i += 1;
        }
        true
    }
}

/// The absolute-mouse report state: held buttons and the last position.
#[derive(Copy, Clone, Debug, PartialEq, Eq, Structural)]
pub struct AbsMouseReport {
    pub buttons: u8,
    pub x: u16,
    pub y: u16,
}

/// The seven report bytes of the mouse state (no report ID): a button
/// bitfield, the two coordinates little-endian, and the signed wheel and
/// pan deltas of this event.
pub open spec fn mouse_bytes(m: AbsMouseReport, wheel: i8, pan: i8) -> Seq<u8> {
    seq![m.buttons, lsb16(m.x), msb16(m.x), lsb16(m.y), msb16(m.y), wheel as u8, pan as u8]
}

impl AbsMouseReport {
    pub fn new() -> (r: AbsMouseReport)
        ensures
            r == (AbsMouseReport { buttons: 0u8, x: 0u16, y: 0u16 }),
    {
        AbsMouseReport { buttons: 0, x: 0, y: 0 }
    }

    /// The current state as a wire-ready report under ID 2.
    pub fn report(&self, wheel: i8, pan: i8) -> (r: HidReport)
        ensures
            r is Mouse,
            r.bytes() == seq![2u8] + mouse_bytes(*self, wheel, pan),
    {
        let d: [u8; 7] = [
            self.buttons,
            (self.x % 0x100) as u8,
            (self.x / 0x100) as u8,
            (self.y % 0x100) as u8,
            (self.y / 0x100) as u8,
            #[verifier::truncate]
            (wheel as u8),
            #[verifier::truncate]
            (pan as u8),
        ];
        proof {
            assert(d@ =~= mouse_bytes(*self, wheel, pan));
        }
        HidReport::mouse(d)
    }

    /// Moves to an absolute position.
    pub fn move_to(&mut self, x: u16, y: u16) -> (r: HidReport)
        ensures
            *final(self) == (AbsMouseReport { buttons: old(self).buttons, x, y }),
            r is Mouse,
            r.bytes() == seq![2u8] + mouse_bytes(*final(self), 0, 0),
    {
        self.x = x;
        self.y = y;
        self.report(0, 0)
    }

    /// Presses the buttons of `mask`.
    pub fn mouse_down(&mut self, mask: u8) -> (r: HidReport)
        ensures
            *final(self) == (AbsMouseReport {
                buttons: (old(self).buttons | mask) as u8,
                x: old(self).x,
                y: old(self).y,
            }),
            r is Mouse,
            r.bytes() == seq![2u8] + mouse_bytes(*final(self), 0, 0),
    {
        self.buttons = self.buttons | mask;
        self.report(0, 0)
    }

    /// Releases the buttons of `mask`.
    pub fn mouse_up(&mut self, mask: u8) -> (r: HidReport)
        ensures
            *final(self) == (AbsMouseReport {
                buttons: (old(self).buttons & !mask) as u8,
                x: old(self).x,
                y: old(self).y,
            }),
            r is Mouse,
            r.bytes() == seq![2u8] + mouse_bytes(*final(self), 0, 0),
    {
        self.buttons = self.buttons & !mask;
        self.report(0, 0)
    }

    /// Scrolls without moving: the state is unchanged, the deltas ride
    /// in this one report.
    pub fn mouse_wheel(&mut self, wheel: i8, pan: i8) -> (r: HidReport)
        ensures
            *final(self) == *old(self),
            r is Mouse,
            r.bytes() == seq![2u8] + mouse_bytes(*final(self), wheel, pan),
    {
        self.report(wheel, pan)
    }

    /// Releases everything and reports the all-zero state.
    pub fn clear(&mut self) -> (r: HidReport)
        ensures
            *final(self) == (AbsMouseReport { buttons: 0u8, x: 0u16, y: 0u16 }),
            r is Mouse,
            r.bytes() == seq![2u8] + mouse_bytes(*final(self), 0, 0),
    {
        self.buttons = 0;
        self.x = 0;
        self.y = 0;
        self.report(0, 0)
    }

    /// Whether no button is held.
    pub fn is_empty(&self) -> (r: bool)
        ensures
            r == (self.buttons == 0),
    {
        self.buttons == 0
    }
}

/// The consumer-control report state: the one held usage, zero if none.
#[derive(Copy, Clone, Debug, PartialEq, Eq, Structural)]
pub struct ConsumerReport {
    pub code: u16,
}

/// The two report bytes of the consumer state (no report ID), big-endian.
pub open spec fn consumer_bytes(code: u16) -> Seq<u8> {
    seq![msb16(code), lsb16(code)]
}

impl ConsumerReport {
    pub fn new() -> (r: ConsumerReport)
        ensures
            r == (ConsumerReport { code: 0u16 }),
    {
        ConsumerReport { code: 0 }
    }

    /// The current state as a wire-ready report under ID 3.
    pub fn report(&self) -> (r: HidReport)
        ensures
            r is Consumer,
            r.bytes() == seq![3u8] + consumer_bytes(self.code),
    {
        let d: [u8; 2] = [(self.code / 0x100) as u8, (self.code % 0x100) as u8];
        proof {
            assert(d@ =~= consumer_bytes(self.code));
        }
        HidReport::consumer(d)
    }

    /// Presses one consumer usage.
    pub fn press(&mut self, code: u16) -> (r: HidReport)
        ensures
            *final(self) == (ConsumerReport { code }),
            r is Consumer,
            r.bytes() == seq![3u8] + consumer_bytes(code),
    {
        self.code = code;
        self.report()
    }

    /// Releases the held usage.
    pub fn release(&mut self) -> (r: HidReport)
        ensures
            *final(self) == (ConsumerReport { code: 0u16 }),
            r is Consumer,
            r.bytes() == seq![3u8] + consumer_bytes(0),
    {
        self.code = 0;
        self.report()
    }

    /// Same as release: the all-zero consumer report.
    pub fn clear(&mut self) -> (r: HidReport)
        ensures
            *final(self) == (ConsumerReport { code: 0u16 }),
            r is Consumer,
            r.bytes() == seq![3u8] + consumer_bytes(0),
    {
        self.code = 0;
        self.report()
    }

    /// Whether no usage is held.
    pub fn is_empty(&self) -> (r: bool)
        ensures
            r == (self.code == 0),
    {
        self.code == 0
    }
}

/// Ghost shape of the whole translator.
pub struct HidModel {
    pub flip: bool,
    pub buttons: Seq<u16>,
    pub kb: KbModel,
    pub mouse: AbsMouseReport,
    pub consumer: u16,
}

/// The server-button table with `key` recorded under `button`; slots
/// above the supported range are ignored.
pub open spec fn table_update(b: Seq<u16>, button: u16, key: u16) -> Seq<u16> {
    if button <= 512 {
        b.update(button as int, key)
    } else {
        b
    }
}

/// The key last pressed through `button`, zero if none or out of range.
pub open spec fn table_at(b: Seq<u16>, button: u16) -> u16 {
    if button <= 512 {
        b[button as int]
    } else {
        0u16
    }
}

/// A coordinate forced into the absolute-mouse logical range.
pub open spec fn clamp_abs(v: u16) -> u16 {
    if v > 0x7fff {
        0x7fff
    } else {
        v
    }
}

/// A wheel delta divided by the Barrier unit of 120, truncating toward
/// zero.
pub open spec fn wheel_quot(d: i16) -> int {
    if d >= 0 {
        d / 120
    } else {
        -((-(d as int)) / 120)
    }
}

/// An integer forced into the signed-byte range.
pub open spec fn clamp_i8(v: int) -> i8 {
    if v < -128 {
        -128i8
    } else if v > 127 {
        127i8
    } else {
        v as i8
    }
}

/// The HID byte for one wheel axis: the delta in ticks of 120, negated
/// when the wheel is flipped, held inside a signed byte.
pub open spec fn wheel_byte(d: i16, flip: bool) -> i8 {
    if flip {
        clamp_i8(-wheel_quot(d))
    } else {
        clamp_i8(wheel_quot(d))
    }
}

/// What a fresh translator looks like.
pub open spec fn initial_hid(flip: bool) -> HidModel {
    HidModel {
        flip,
        buttons: Seq::new(513, |i: int| 0u16),
        kb: kb_empty(),
        mouse: AbsMouseReport { buttons: 0u8, x: 0u16, y: 0u16 },
        consumer: 0,
    }
}

/// A key press: the button slot records the key, and the mapped usage
/// lands in the keyboard or the consumer report; a key without an HID
/// equivalent clears the keyboard, as a safe neutral report.
pub open spec fn spec_key_down(s: HidModel, key: u16, button: u16) -> (HidModel, Seq<u8>) {
    let b2 = table_update(s.buttons, button, key);
    match key_map(key) {
        KeyCode::Unmapped => (
            HidModel { buttons: b2, kb: kb_empty(), ..s },
            seq![1u8] + kb_bytes(kb_empty()),
        ),
        KeyCode::Key(k) => {
            let kb2 = spec_kb_press(s.kb, k);
            (HidModel { buttons: b2, kb: kb2, ..s }, seq![1u8] + kb_bytes(kb2))
        },
        KeyCode::Consumer(c) => (
            HidModel { buttons: b2, consumer: c, ..s },
            seq![3u8] + consumer_bytes(c),
        ),
    }
}

/// A key release: the key released is the one recorded in the button
/// slot, not the one the server names now, and the slot is cleared; an
/// empty slot clears the whole keyboard instead.
pub open spec fn spec_key_up(s: HidModel, button: u16) -> (HidModel, Seq<u8>) {
    let prev = table_at(s.buttons, button);
    if prev != 0 {
        let b2 = table_update(s.buttons, button, 0);
        match key_map(prev) {
            KeyCode::Unmapped => (
                HidModel { buttons: b2, kb: kb_empty(), ..s },
                seq![1u8] + kb_bytes(kb_empty()),
            ),
            KeyCode::Key(k) => {
                let kb2 = spec_kb_release(s.kb, k);
                (HidModel { buttons: b2, kb: kb2, ..s }, seq![1u8] + kb_bytes(kb2))
            },
            KeyCode::Consumer(_) => (
                HidModel { buttons: b2, consumer: 0, ..s },
                seq![3u8] + consumer_bytes(0),
            ),
        }
    } else {
        (HidModel { kb: kb_empty(), ..s }, seq![1u8] + kb_bytes(kb_empty()))
    }
}

/// The composite translator: the three report states and the
/// server-button table, fed by raw server events, emitting one
/// wire-ready report per event.
#[derive(Debug)]
pub struct SynergyHid {
    flip_mouse_wheel: bool,
    server_buttons: Vec<u16>,
    keyboard_report: KeyboardReport,
    mouse_report: AbsMouseReport,
    consumer_report: ConsumerReport,
}

impl View for SynergyHid {
    type V = HidModel;

    closed spec fn view(&self) -> HidModel {
        HidModel {
            flip: self.flip_mouse_wheel,
            buttons: self.server_buttons@,
            kb: self.keyboard_report@,
            mouse: self.mouse_report,
            consumer: self.consumer_report.code,
        }
    }
}

impl SynergyHid {
    pub closed spec fn wf(&self) -> bool {
        self.server_buttons@.len() == 513 && self.keyboard_report.wf()
    }

    pub fn new(flip_mouse_wheel: bool) -> (r: SynergyHid)
        ensures
            r.wf(),
            r@ == initial_hid(flip_mouse_wheel),
    {
        let mut server_buttons: Vec<u16> = Vec::new();
        let mut i: usize = 0;
        while i < 513
            invariant
                i <= 513,
                server_buttons@.len() == i,
                forall|j: int| 0 <= j < i ==> server_buttons@[j] == 0,
            decreases 513 - i,
        {
            server_buttons.push(0);
            i += 1;
        }
        let r = SynergyHid {
            flip_mouse_wheel,
            server_buttons,
            keyboard_report: KeyboardReport::new(),
            mouse_report: AbsMouseReport::new(),
            consumer_report: ConsumerReport::new(),
        };
        proof {
            assert(r@.buttons =~= initial_hid(flip_mouse_wheel).buttons);
        }
        r
    }

    /// The composite report descriptor: three top-level collections
    /// under report IDs 1 (keyboard), 2 (absolute mouse) and
    /// 3 (consumer control), and the size of the largest report.
    pub fn get_report_descriptor() -> (r: (u8, [u8; 151]))
        ensures
            r.0 == 9,
    {
        let descriptor: [u8; 151] = [
            0x05, 0x01, 0x09, 0x06, 0xa1, 0x01, 0x85, 0x01, 0x05, 0x07, 0x19, 0xe0, 0x29, 0xe7,
            0x15, 0x00, 0x25, 0x01, 0x75, 0x01, 0x95, 0x08, 0x81, 0x02, 0x75, 0x08, 0x95, 0x01,
            0x81, 0x01, 0x19, 0x00, 0x29, 0xff, 0x15, 0x00, 0x26, 0xff, 0x00, 0x75, 0x08, 0x95,
            0x06, 0x81, 0x00, 0xc0, 0x05, 0x01, 0x09, 0x02, 0xa1, 0x01, 0x85, 0x02, 0x09, 0x01,
            0xa1, 0x00, 0x05, 0x09, 0x19, 0x01, 0x29, 0x03, 0x15, 0x00, 0x25, 0x01, 0x75, 0x01,
            0x95, 0x03, 0x81, 0x02, 0x75, 0x05, 0x95, 0x01, 0x81, 0x01, 0x05, 0x01, 0x09, 0x30,
            0x09, 0x31, 0x15, 0x00, 0x26, 0xff, 0x7f, 0x75, 0x10, 0x95, 0x02, 0x81, 0x02, 0x09,
            0x38, 0x15, 0x81, 0x25, 0x7f, 0x75, 0x08, 0x95, 0x01, 0x81, 0x06, 0x05, 0x0c, 0x0a,
            0x38, 0x02, 0x15, 0x81, 0x25, 0x7f, 0x75, 0x08, 0x95, 0x01, 0x81, 0x06, 0xc0, 0xc0,
            0x05, 0x0c, 0x09, 0x01, 0xa1, 0x01, 0x85, 0x03, 0x15, 0x00, 0x26, 0xff, 0x03, 0x19,
            0x00, 0x2a, 0xff, 0x03, 0x75, 0x10, 0x95, 0x01, 0x81, 0x00, 0xc0,
        ];
        (9, descriptor)
    }

    /// Handles a server key press.
    pub fn key_down(&mut self, key: u16, mask: u16, button: u16) -> (r: (ReportType, HidReport))
        requires
            old(self).wf(),
        ensures
            final(self).wf(),
            final(self)@ == spec_key_down(old(self)@, key, button).0,
            r.1.bytes() == spec_key_down(old(self)@, key, button).1,
            r.0 == (match key_map(key) {
                KeyCode::Consumer(_) => ReportType::Consumer,
                _ => ReportType::Keyboard,
            }),
    {
        let _ = mask;
        if button <= 512 {
            self.server_buttons.set(button as usize, key);
        }
        match synergy_to_hid(key) {
            KeyCode::Unmapped => {
                let rep = self.keyboard_report.clear();
                (ReportType::Keyboard, rep)
            },
            KeyCode::Key(k) => {
                let rep = self.keyboard_report.press(k);
                (ReportType::Keyboard, rep)
            },
            KeyCode::Consumer(c) => {
                let rep = self.consumer_report.press(c);
                (ReportType::Consumer, rep)
            },
        }
    }

    /// Handles a server key release: what is released is the key the
    /// button slot recorded, whatever key code the server names now.
    pub fn key_up(&mut self, key: u16, mask: u16, button: u16) -> (r: (ReportType, HidReport))
        requires
            old(self).wf(),
        ensures
            final(self).wf(),
            final(self)@ == spec_key_up(old(self)@, button).0,
            r.1.bytes() == spec_key_up(old(self)@, button).1,
    {
        let _ = key;
        let _ = mask;
        let prev: u16 = if button <= 512 {
            self.server_buttons[button as usize]
        } else {
            0
        };
        if prev != 0 {
            self.server_buttons.set(button as usize, 0);
            match synergy_to_hid(prev) {
                KeyCode::Unmapped => {
                    let rep = self.keyboard_report.clear();
                    (ReportType::Keyboard, rep)
                },
                KeyCode::Key(k) => {
                    let rep = self.keyboard_report.release(k);
                    (ReportType::Keyboard, rep)
                },
                KeyCode::Consumer(_) => {
                    let rep = self.consumer_report.release();
                    (ReportType::Consumer, rep)
                },
            }
        } else {
            let rep = self.keyboard_report.clear();
            (ReportType::Keyboard, rep)
        }
    }

    /// Moves the absolute mouse; coordinates are clamped into the
    /// logical range, which the translator never leaves.
    pub fn set_cursor_position(&mut self, x: u16, y: u16) -> (r: (ReportType, HidReport))
        requires
            old(self).wf(),
        ensures
            final(self).wf(),
            final(self)@ == (HidModel {
                mouse: AbsMouseReport {
                    buttons: old(self)@.mouse.buttons,
                    x: clamp_abs(x),
                    y: clamp_abs(y),
                },
                ..old(self)@
            }),
            r.0 == ReportType::Mouse,
            r.1.bytes() == seq![2u8] + mouse_bytes(final(self)@.mouse, 0, 0),
    {
        let cx = if x > 0x7fff {
            0x7fff
        } else {
            x
        };
        let cy = if y > 0x7fff {
            0x7fff
        } else {
            y
        };
        let rep = self.mouse_report.move_to(cx, cy);
        (ReportType::Mouse, rep)
    }

    /// Presses a mouse button; Synergy buttons outside one to three are
    /// ignored.
    pub fn mouse_down(&mut self, button: i8) -> (r: (ReportType, HidReport))
        requires
            old(self).wf(),
        ensures
            final(self).wf(),
            final(self)@ == (HidModel {
                mouse: AbsMouseReport {
                    buttons: (old(self)@.mouse.buttons | spec_mouse_button_mask(button)) as u8,
                    x: old(self)@.mouse.x,
                    y: old(self)@.mouse.y,
                },
                ..old(self)@
            }),
            r.0 == ReportType::Mouse,
            r.1.bytes() == seq![2u8] + mouse_bytes(final(self)@.mouse, 0, 0),
    {
        let mask = synergy_mouse_button(button);
        let rep = self.mouse_report.mouse_down(mask);
        (ReportType::Mouse, rep)
    }

    /// Releases a mouse button.
    pub fn mouse_up(&mut self, button: i8) -> (r: (ReportType, HidReport))
        requires
            old(self).wf(),
        ensures
            final(self).wf(),
            final(self)@ == (HidModel {
                mouse: AbsMouseReport {
                    buttons: (old(self)@.mouse.buttons & !spec_mouse_button_mask(button)) as u8,
                    x: old(self)@.mouse.x,
                    y: old(self)@.mouse.y,
                },
                ..old(self)@
            }),
            r.0 == ReportType::Mouse,
            r.1.bytes() == seq![2u8] + mouse_bytes(final(self)@.mouse, 0, 0),
    {
        let mask = synergy_mouse_button(button);
        let rep = self.mouse_report.mouse_up(mask);
        (ReportType::Mouse, rep)
    }

    /// Scrolls: Barrier reports multiples of 120 with x horizontal and
    /// y vertical; HID wants the wheel byte vertical and the pan byte
    /// horizontal, each clamped into a signed byte, both negated when
    /// the wheel is flipped.
    pub fn mouse_scroll(&mut self, x: i16, y: i16) -> (r: (ReportType, HidReport))
        requires
            old(self).wf(),
        ensures
            final(self).wf(),
            final(self)@ == old(self)@,
            r.0 == ReportType::Mouse,
            r.1.bytes() == seq![2u8] + mouse_bytes(
                old(self)@.mouse,
                wheel_byte(y, old(self)@.flip),
                wheel_byte(x, old(self)@.flip),
            ),
    {
        let wheel = scroll_byte(y, self.flip_mouse_wheel);
        let pan = scroll_byte(x, self.flip_mouse_wheel);
        let rep = self.mouse_report.mouse_wheel(wheel, pan);
        (ReportType::Mouse, rep)
    }

    /// Emits the neutral (all-zero) report of one device, resetting its
    /// state.
    pub fn clear(&mut self, report_type: ReportType) -> (r: (ReportType, HidReport))
        requires
            old(self).wf(),
        ensures
            final(self).wf(),
            r.0 == report_type,
            match report_type {
                ReportType::Keyboard => final(self)@ == (HidModel {
                    kb: kb_empty(),
                    ..old(self)@
                }) && r.1.bytes() == seq![1u8] + kb_bytes(kb_empty()),
                ReportType::Mouse => final(self)@ == (HidModel {
                    mouse: AbsMouseReport { buttons: 0u8, x: 0u16, y: 0u16 },
                    ..old(self)@
                }) && r.1.bytes() == seq![2u8] + mouse_bytes(
                    AbsMouseReport { buttons: 0u8, x: 0u16, y: 0u16 },
                    0,
                    0,
                ),
                ReportType::Consumer => final(self)@ == (HidModel {
                    consumer: 0,
                    ..old(self)@
                }) && r.1.bytes() == seq![3u8] + consumer_bytes(0),
            },
    {
        match report_type {
            ReportType::Keyboard => {
                let rep = self.keyboard_report.clear();
                (ReportType::Keyboard, rep)
            },
            ReportType::Mouse => {
                let rep = self.mouse_report.clear();
                (ReportType::Mouse, rep)
            },
            ReportType::Consumer => {
                let rep = self.consumer_report.clear();
                (ReportType::Consumer, rep)
            },
        }
    }

    /// Whether nothing at all is held down.
    pub fn is_empty(&self) -> (r: bool)
        requires
            self.wf(),
        ensures
            r == (kb_is_empty(self@.kb) && self@.mouse.buttons == 0 && self@.consumer == 0),
    {
        self.keyboard_report.is_empty() && self.mouse_report.is_empty()
            && self.consumer_report.is_empty()
    }
}

/// One wheel axis turned into its HID byte.
fn scroll_byte(d: i16, flip: bool) -> (r: i8)
    ensures
        r == wheel_byte(d, flip),
{
    let mag: u32 = if d >= 0 {
        d as u32
    } else {
        (-(d as i32)) as u32
    };
    let q: u32 = mag / 120;
    let signed: i32 = if d >= 0 {
        q as i32
    } else {
        -(q as i32)
    };
    let flipped: i32 = if flip {
        -signed
    } else {
        signed
    };
    if flipped < -128 {
        -128
    } else if flipped > 127 {
        127
    } else {
        flipped as i8
    }
}

/// Server-button table semantics: a key press through button `b`
/// followed by a release through `b` — whatever key code the release
/// names — releases exactly the usage the press allocated and clears
/// the table entry for `b`.
pub proof fn lemma_server_button_table(s: HidModel, k: u16, b: u16, hk: u8)
    requires
        b <= 512,
        s.buttons.len() == 513,
        k != 0,
        key_map(k) == KeyCode::Key(hk),
    ensures
        ({
            let s1 = spec_key_down(s, k, b).0;
            let s2 = spec_key_up(s1, b).0;
            &&& table_at(s2.buttons, b) == 0
            &&& s2.kb == spec_kb_release(spec_kb_press(s.kb, hk), hk)
            &&& spec_key_up(s1, b).1 == seq![1u8] + kb_bytes(
                spec_kb_release(spec_kb_press(s.kb, hk), hk),
            )
        }),
{
    let s1 = spec_key_down(s, k, b).0;
    assert(table_at(s1.buttons, b) == k);
}

/// A key press through button `b` records the key there, so a later
/// release through `b` can name it.
pub proof fn lemma_key_down_records(s: HidModel, k: u16, b: u16)
    requires
        b <= 512,
        s.buttons.len() == 513,
    ensures
        table_at(spec_key_down(s, k, b).0.buttons, b) == k,
{
}

/// A pressed key that was not already held is fully released again:
/// releasing the usage its press allocated restores the slots.
pub proof fn lemma_press_release_restores(kb: KbModel, hk: u8)
    requires
        !is_hid_modifier(hk),
        hk != 0,
        !kb.keys.contains(hk),
    ensures
        spec_kb_release(spec_kb_press(kb, hk), hk).keys == kb.keys,
        spec_kb_release(spec_kb_press(kb, hk), hk).modifier == kb.modifier,
{
    lemma_zero_matching_set_first_zero(kb.keys, hk, 0);
}

/// Releasing a usage that a sequence without it gained through
/// `set_first_zero` gives the sequence back.
proof fn lemma_zero_matching_set_first_zero(keys: Seq<u8>, hk: u8, i: int)
    requires
        0 <= i <= keys.len(),
        hk != 0,
        !keys.contains(hk),
    ensures
        zero_matching(set_first_zero(keys, hk, i), hk) == keys,
    decreases keys.len() - i,
{
    assert(forall|j: int| 0 <= j < keys.len() ==> keys[j] != hk);
    if i >= keys.len() {
        assert(zero_matching(keys, hk) =~= keys);
    } else if keys[i] == 0 {
        assert(zero_matching(keys.update(i, hk), hk) =~= keys);
    } else {
        lemma_zero_matching_set_first_zero(keys, hk, i + 1);
    }
}

/// Wheel clamping: every wheel byte lies inside a signed byte, its sign
/// follows the delta's (after flipping), and inside the non-saturating
/// range flipping is exact negation.  At deltas of 15360 and beyond the
/// clamp saturates asymmetrically, so exact negation stops there.
pub proof fn lemma_wheel_clamping(d: i16, flip: bool)
    ensures
        -128 <= wheel_byte(d, flip) as int <= 127,
        d >= 0 && !flip ==> wheel_byte(d, flip) as int >= 0,
        d <= 0 && !flip ==> wheel_byte(d, flip) as int <= 0,
        d >= 0 && flip ==> wheel_byte(d, flip) as int <= 0,
        d <= 0 && flip ==> wheel_byte(d, flip) as int >= 0,
        -15360 < d < 15360 ==> wheel_byte(d, true) as int == -(wheel_byte(d, false) as int),
{
    if d >= 0 {
        let v = d as int;
        assert(0 <= v / 120 <= 273) by (nonlinear_arith)
            requires
                0 <= v <= 32767,
        ;
        if d < 15360 {
            assert(v / 120 < 128) by (nonlinear_arith)
                requires
                    0 <= v <= 15359,
            ;
        }
    } else {
        let m = -(d as int);
        assert(0 < m <= 32768);
        assert(0 <= m / 120 <= 273) by (nonlinear_arith)
            requires
                0 < m <= 32768,
        ;
        if d > -15360 {
            assert(m / 120 < 128) by (nonlinear_arith)
                requires
                    0 < m <= 15359,
            ;
        }
    }
}

} // verus!

