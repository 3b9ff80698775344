use vstd::prelude::*;

verus! {

/// One wire-ready HID report, report-ID byte included.
#[derive(Debug, Clone, PartialEq, Eq)]
pub enum HidReport {
    Keyboard([u8; 9]),
    Mouse([u8; 8]),
    Consumer([u8; 3]),
}

impl HidReport {
    /// The bytes of the report as written to the endpoint.
    pub open spec fn bytes(&self) -> Seq<u8> {
        match self {
            HidReport::Keyboard(d) => d@,
            HidReport::Mouse(d) => d@,
            HidReport::Consumer(d) => d@,
        }
    }

    /// Wraps raw keyboard report bytes under report ID 1.
    pub fn keyboard(data: [u8; 8]) -> (r: HidReport)
        ensures
            r is Keyboard,
            r.bytes() == seq![1u8] + data@,
    {
        let report: [u8; 9] = [
            1,
            data[0],
            data[1],
            data[2],
            data[3],
            data[4],
            data[5],
            data[6],
            data[7],
        ];
        proof {
            assert(report@ =~= seq![1u8] + data@);
        }
        HidReport::Keyboard(report)
    }

    /// Wraps raw absolute-mouse report bytes under report ID 2.
    pub fn mouse(data: [u8; 7]) -> (r: HidReport)
        ensures
            r is Mouse,
            r.bytes() == seq![2u8] + data@,
    {
        let report: [u8; 8] = [2, data[0], data[1], data[2], data[3], data[4], data[5], data[6]];
        proof {
            assert(report@ =~= seq![2u8] + data@);
        }
        HidReport::Mouse(report)
    }

    /// Wraps raw consumer-control report bytes under report ID 3.
    pub fn consumer(data: [u8; 2]) -> (r: HidReport)
        ensures
            r is Consumer,
            r.bytes() == seq![3u8] + data@,
    {
        let report: [u8; 3] = [3, data[0], data[1]];
        proof {
            assert(report@ =~= seq![3u8] + data@);
        }
        HidReport::Consumer(report)
    }
}

/// The deadline, in milliseconds, for one USB report write: three polling
/// intervals, held inside 10..=100; past it the endpoint is considered
/// stuck and the system must reset.
pub fn report_write_deadline_ms(polling_interval: u8) -> (r: u64)
    ensures
        r == if 3 * polling_interval < 10 {
            10int
        } else if 3 * polling_interval > 100 {
            100int
        } else {
            3 * polling_interval as int
        },
        10 <= r <= 100,
{
    let t: u64 = polling_interval as u64 * 3;
    if t < 10 {
        10
    } else if t > 100 {
        100
    } else {
        t
    }
}

} // verus!
