use vstd::prelude::*;

use crate::constants::{
    BRIGHTNESS, JIGGLE_INTERVAL, MAX_CONFIG_SIZE, POLLING_RATE, SCREEN_HEIGHT, SCREEN_WIDTH,
    USB_PID, USB_VID,
};
use crate::running_state::{IpAddress, IpCidr};

verus! {

pub fn get_default_screen_width() -> (r: u16)
    ensures
        r == SCREEN_WIDTH,
{
    SCREEN_WIDTH
}

pub fn get_default_screen_height() -> (r: u16)
    ensures
        r == SCREEN_HEIGHT,
{
    SCREEN_HEIGHT
}

pub fn get_default_polling_rate() -> (r: u16)
    ensures
        r == POLLING_RATE,
{
    POLLING_RATE
}

pub fn get_default_jiggle_interval() -> (r: u16)
    ensures
        r == JIGGLE_INTERVAL,
{
    JIGGLE_INTERVAL
}

pub fn get_default_brightness() -> (r: u8)
    ensures
        r == BRIGHTNESS,
{
    BRIGHTNESS
}

pub fn get_default_vid() -> (r: u16)
    ensures
        r == USB_VID,
{
    USB_VID
}

pub fn get_default_pid() -> (r: u16)
    ensures
        r == USB_PID,
{
    USB_PID
}

/// The HID polling interval in milliseconds for a polling rate in
/// hertz, held inside one byte.
pub open spec fn spec_polling_interval(polling_rate: u16) -> u8 {
    let t = 1000int / (polling_rate as int);
    if t < 1 {
        1u8
    } else if t > 255 {
        255u8
    } else {
        t as u8
    }
}

/// Millisecond polling interval for a polling rate in hertz.
pub fn get_polling_interval(polling_rate: u16) -> (r: u8)
    requires
        polling_rate >= 1,
    ensures
        r == spec_polling_interval(polling_rate),
{
    let t: u16 = 1000 / polling_rate;
    if t < 1 {
        1
    } else if t > 255 {
        255
    } else {
        t as u8
    }
}

/// Where the stored JSON text ends: at the first NUL or non-text byte,
/// or at the end of the buffer.
pub open spec fn json_end(s: Seq<u8>, i: int) -> int
    decreases s.len() - i,
        when 0 <= i <= s.len()
{
    if i >= s.len() {
        s.len() as int
    } else if s[i] == 0 || s[i] > 0xf4 {
        i
    } else {
        json_end(s, i + 1)
    }
}

/// The prefix of a flash sector that holds the configuration text.
pub fn json_range(buf: &[u8]) -> (r: &[u8])
    ensures
        r@ == buf@.subrange(0, json_end(buf@, 0)),
{
    let n = buf.len();
    let mut i: usize = 0;
    while i < n
        invariant
            i <= n,
            n == buf@.len(),
            json_end(buf@, 0) == json_end(buf@, i as int),
        decreases n - i,
    {
        if buf[i] == 0 || buf[i] > 0xf4 {
            return vstd::slice::slice_subrange(buf, 0, i);
        }
        proof {
            assert(json_end(buf@, i as int) == json_end(buf@, i as int + 1));
        }
        i += 1;
    }
    vstd::slice::slice_subrange(buf, 0, n)
}

/// A decimal number scanned from `i`: the value (saturated at 0x10000,
/// past any valid octet or port) and the offset of the first non-digit.
pub open spec fn take_num(s: Seq<u8>, i: int) -> (int, int)
    decreases s.len() - i,
        when 0 <= i <= s.len()
{
    if i >= s.len() || !(0x30 <= s[i] <= 0x39) {
        (-1, i)
    } else {
        take_num_loop(s, i, 0)
    }
}

/// The scanning loop behind `take_num`, with the digits so far in
/// `acc`.
pub open spec fn take_num_loop(s: Seq<u8>, i: int, acc: int) -> (int, int)
    decreases s.len() - i,
        when 0 <= i <= s.len()
{
    if i >= s.len() || !(0x30 <= s[i] <= 0x39) {
        (acc, i)
    } else {
        let acc2 = acc * 10 + (s[i] - 0x30);
        take_num_loop(s, i + 1, if acc2 > 0x10000 { 0x10000int } else { acc2 })
    }
}

/// Scans a decimal number, returning its (saturated) value and where
/// it ended; a missing number reads as minus one.
fn scan_num(s: &[u8], start: usize) -> (r: (i64, usize))
    requires
        start <= s@.len(),
    ensures
        (r.0 as int, r.1 as int) == take_num(s@, start as int),
        start <= r.1 <= s@.len(),
        -1 <= r.0 <= 0x10000,
{
    let n = s.len();
    if start >= n || s[start] < 0x30 || s[start] > 0x39 {
        return (-1, start);
    }
    let mut acc: i64 = 0;
    let mut i: usize = start;
    while i < n && s[i] >= 0x30 && s[i] <= 0x39
        invariant
            start <= i <= n,
            n == s@.len(),
            0 <= acc <= 0x10000,
            take_num_loop(s@, start as int, 0) == take_num_loop(s@, i as int, acc as int),
        decreases n - i,
    {
        let d: i64 = (s[i] - 0x30) as i64;
        let acc2: i64 = acc * 10 + d;
        acc = if acc2 > 0x10000 {
            0x10000
        } else {
            acc2
        };
        i += 1;
    }
    (acc, i)
}

/// What a dotted-quad address text means: four octet values and the
/// offset just past the last one, or nothing if the shape is wrong.
pub open spec fn parse_quad(s: Seq<u8>) -> Option<(IpAddress, int)> {
    let (a, i1) = take_num(s, 0);
    if a < 0 || a > 255 || i1 >= s.len() || s[i1] != 0x2e {
        None
    } else {
        let (b, i2) = take_num(s, i1 + 1);
        if b < 0 || b > 255 || i2 >= s.len() || s[i2] != 0x2e {
            None
        } else {
            let (c, i3) = take_num(s, i2 + 1);
            if c < 0 || c > 255 || i3 >= s.len() || s[i3] != 0x2e {
                None
            } else {
                let (d, i4) = take_num(s, i3 + 1);
                if d < 0 || d > 255 {
                    None
                } else {
                    Some(
                        (
                            IpAddress { a: a as u8, b: b as u8, c: c as u8, d: d as u8 },
                            i4,
                        ),
                    )
                }
            }
        }
    }
}

/// A whole text as an IPv4 address, nothing trailing.
pub open spec fn parse_addr_spec(s: Seq<u8>) -> Option<IpAddress> {
    match parse_quad(s) {
        Some((ip, end)) => if end == s.len() {
            Some(ip)
        } else {
            None
        },
        None => None,
    }
}

/// A whole text as address and prefix length, `a.b.c.d/len` with the
/// prefix at most thirty-two.
pub open spec fn parse_cidr_spec(s: Seq<u8>) -> Option<IpCidr> {
    match parse_quad(s) {
        Some((ip, end)) => if end < s.len() && s[end] == 0x2f {
            let (p, e2) = take_num(s, end + 1);
            if 0 <= p <= 32 && e2 == s.len() {
                Some(IpCidr { address: ip, prefix_len: p as u8 })
            } else {
                None
            }
        } else {
            None
        },
        None => None,
    }
}

/// A whole text as address and port, `a.b.c.d:port`.
pub open spec fn parse_endpoint_spec(s: Seq<u8>) -> Option<(IpAddress, u16)> {
    match parse_quad(s) {
        Some((ip, end)) => if end < s.len() && s[end] == 0x3a {
            let (p, e2) = take_num(s, end + 1);
            if 0 <= p <= 0xffff && e2 == s.len() {
                Some((ip, p as u16))
            } else {
                None
            }
        } else {
            None
        },
        None => None,
    }
}

/// Scans the dotted-quad prefix of an address text.
fn scan_quad(s: &[u8]) -> (r: Option<(IpAddress, usize)>)
    ensures
        match r {
            Some((ip, end)) => parse_quad(s@) == Some((ip, end as int)) && end <= s@.len(),
            None => parse_quad(s@) is None,
        },
{
    let n = s.len();
    let (a, i1) = scan_num(s, 0);
    if a < 0 || a > 255 || i1 >= n || s[i1] != 0x2e {
        return None;
    }
    let (b, i2) = scan_num(s, i1 + 1);
    if b < 0 || b > 255 || i2 >= n || s[i2] != 0x2e {
        return None;
    }
    let (c, i3) = scan_num(s, i2 + 1);
    if c < 0 || c > 255 || i3 >= n || s[i3] != 0x2e {
        return None;
    }
    let (d, i4) = scan_num(s, i3 + 1);
    if d < 0 || d > 255 {
        return None;
    }
    Some((IpAddress { a: a as u8, b: b as u8, c: c as u8, d: d as u8 }, i4))
}

/// Parses a whole address text, `a.b.c.d`.
pub fn parse_addr(s: &[u8]) -> (r: Option<IpAddress>)
    ensures
        r == parse_addr_spec(s@),
{
    match scan_quad(s) {
        Some((ip, end)) => if end == s.len() {
            Some(ip)
        } else {
            None
        },
        None => None,
    }
}

/// Parses a whole static-address text, `a.b.c.d/len`.
pub fn parse_cidr(s: &[u8]) -> (r: Option<IpCidr>)
    ensures
        r == parse_cidr_spec(s@),
{
    match scan_quad(s) {
        Some((ip, end)) => {
            if end < s.len() && s[end] == 0x2f {
                let (p, e2) = scan_num(s, end + 1);
                if 0 <= p && p <= 32 && e2 == s.len() {
                    Some(IpCidr { address: ip, prefix_len: p as u8 })
                } else {
                    None
                }
            } else {
                None
            }
        },
        None => None,
    }
}

/// Parses a whole server-endpoint text, `a.b.c.d:port`.
pub fn parse_endpoint(s: &[u8]) -> (r: Option<(IpAddress, u16)>)
    ensures
        r == parse_endpoint_spec(s@),
{
    match scan_quad(s) {
        Some((ip, end)) => {
            if end < s.len() && s[end] == 0x3a {
                let (p, e2) = scan_num(s, end + 1);
                if 0 <= p && p <= 0xffff && e2 == s.len() {
                    Some((ip, p as u16))
                } else {
                    None
                }
            } else {
                None
            }
        },
        None => None,
    }
}

/// Faults of the configuration store.
#[derive(Debug, Clone, Copy, PartialEq, Eq, Structural)]
pub enum ConfigStoreError {
    /// The flash backend failed.
    FlashStorageError,
    /// A block write would leave the sector.
    RangeTooLarge,
    /// The stored text did not parse as a configuration.
    SerdeError,
    /// The command byte selected nothing.
    UnknownCommand,
}

/// One flash sector of configuration text, assembled or served in
/// blocks over the control channel.  Validation against the
/// configuration schema and the flash write itself happen outside.
pub struct ConfigStore {
    data: Vec<u8>,
    size: usize,
}

impl ConfigStore {
    /// The buffer always spans one sector and the used size stays
    /// inside it.
    pub closed spec fn wf(&self) -> bool {
        self.data@.len() == MAX_CONFIG_SIZE && self.size <= MAX_CONFIG_SIZE
    }

    pub closed spec fn data_spec(&self) -> Seq<u8> {
        self.data@
    }

    pub closed spec fn size_spec(&self) -> int {
        self.size as int
    }

    pub fn new() -> (r: ConfigStore)
        ensures
            r.wf(),
            r.size_spec() == 0,
            r.data_spec() == Seq::new(MAX_CONFIG_SIZE as nat, |i: int| 0u8),
    {
        let mut data: Vec<u8> = Vec::new();
        let mut i: usize = 0;
        while i < MAX_CONFIG_SIZE
            invariant
                i <= MAX_CONFIG_SIZE,
                data@.len() == i,
                forall|j: int| 0 <= j < i ==> data@[j] == 0,
            decreases MAX_CONFIG_SIZE - i,
        {
            data.push(0);
            i += 1;
        }
        let r = ConfigStore { data, size: 0 };
        proof {
            assert(r.data_spec() =~= Seq::new(MAX_CONFIG_SIZE as nat, |i: int| 0u8));
        }
        r
    }

    /// How many bytes of the sector are in use.
    pub fn len(&self) -> (r: usize)
        ensures
            r == self.size_spec(),
    {
        self.size
    }

    pub fn is_empty(&self) -> (r: bool)
        ensures
            r == (self.size_spec() == 0),
    {
        self.size == 0
    }

    /// Copies one received block into the sector at `offset` and
    /// extends the used size over it.
    pub fn write_block(&mut self, offset: usize, buf: &[u8])
        requires
            old(self).wf(),
            offset + buf@.len() <= MAX_CONFIG_SIZE,
        ensures
            final(self).wf(),
            final(self).data_spec() == old(self).data_spec().subrange(0, offset as int) + buf@
                + old(self).data_spec().skip(offset + buf@.len()),
            final(self).size_spec() == if offset + buf@.len() > old(self).size_spec() {
                offset + buf@.len()
            } else {
                old(self).size_spec()
            },
    {
        let n = buf.len();
        let mut i: usize = 0;
        while i < n
            invariant
                i <= n,
                n == buf@.len(),
                offset + n <= MAX_CONFIG_SIZE,
                self.size == old(self).size,
                self.data@.len() == old(self).data@.len() == MAX_CONFIG_SIZE,
                forall|j: int| 0 <= j < offset ==> self.data@[j] == old(self).data@[j],
                forall|j: int| 0 <= j < i ==> self.data@[offset + j] == buf@[j],
                forall|j: int|
                    offset + n <= j < MAX_CONFIG_SIZE ==> self.data@[j] == old(self).data@[j],
                forall|j: int| offset + i <= j < offset + n ==> self.data@[j] == old(
                    self,
                ).data@[j],
            decreases n - i,
        {
            self.data.set(offset + i, buf[i]);
            i += 1;
        }
        if offset + n > self.size {
            self.size = offset + n;
        }
        proof {
            assert(self.data@ =~= old(self).data_spec().subrange(0, offset as int) + buf@ + old(
                self,
            ).data_spec().skip(offset + buf@.len()));
        }
    }

    /// Serves one block of at most `len` bytes from `offset`, cut off
    /// at the used size.
    pub fn read_block(&self, offset: usize, len: usize) -> (r: Vec<u8>)
        requires
            self.wf(),
            offset <= self.size_spec(),
        ensures
            r@ == self.data_spec().subrange(
                offset as int,
                if offset + len > self.size_spec() {
                    self.size_spec()
                } else {
                    offset + len
                },
            ),
    {
        let end: usize = if len > self.size - offset {
            self.size
        } else {
            offset + len
        };
        let mut r: Vec<u8> = Vec::new();
        let mut i: usize = offset;
        while i < end
            invariant
                offset <= i <= end,
                end <= self.size_spec(),
                self.wf(),
                r@ == self.data_spec().subrange(offset as int, i as int),
            decreases end - i,
        {
            r.push(self.data[i]);
            i += 1;
            assert(r@ =~= self.data_spec().subrange(offset as int, i as int));
        }
        r
    }
}

} // verus!
