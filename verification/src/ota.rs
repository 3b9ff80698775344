use vstd::prelude::*;

verus! {

/// Faults of the firmware-update process.
#[derive(Debug, Clone, Copy, PartialEq, Eq, Structural)]
pub enum OtaError {
    /// An update is already being received.
    AlreadyInProgress,
    /// No update has been started.
    NotStarted,
    /// The updater could not be set up.
    InitFailed,
    /// A chunk could not be written to flash.
    WriteFailed,
    /// The checksum of the received image does not match.
    CrcMismatch,
    /// The update could not be finalised.
    FlushFailed,
    /// The announced firmware size is unusable.
    InvalidSize,
    /// No target partition was found.
    PartitionNotFound,
}

/// Phases of the firmware-update state machine.
#[derive(Debug, Clone, Copy, PartialEq, Eq, Structural)]
pub enum OtaState {
    /// No update in progress.
    Idle,
    /// Receiving image data.
    Receiving { total_size: u32, received: u32, target_crc: u32 },
    /// The image is verified and the next boot takes it.
    Complete,
    /// The update failed.
    Error(OtaError),
}

/// One bit round of the checksum: shift right, fold the polynomial in
/// when a bit falls out.
pub open spec fn crc32_round(c: u32) -> u32 {
    if c & 1 != 0 {
        (c >> 1) ^ 0xEDB88320u32
    } else {
        c >> 1
    }
}

/// `n` checksum bit rounds.
pub open spec fn crc32_rounds(c: u32, n: nat) -> u32
    decreases n,
{
    if n == 0 {
        c
    } else {
        crc32_rounds(crc32_round(c), (n - 1) as nat)
    }
}

/// The running checksum advanced by one byte (IEEE 802.3 polynomial,
/// reflected form).
pub open spec fn crc32_step(crc: u32, byte: u8) -> u32 {
    crc32_rounds(crc ^ (byte as u32), 8)
}

/// The running checksum advanced by a whole buffer.
pub open spec fn crc32_fold(crc: u32, data: Seq<u8>) -> u32
    decreases data.len(),
{
    if data.len() == 0 {
        crc
    } else {
        crc32_fold(crc32_step(crc, data[0]), data.skip(1))
    }
}

/// The checksum of a whole image: folded from the all-ones seed and
/// inverted at the end.
pub open spec fn crc32_of(data: Seq<u8>) -> u32 {
    !crc32_fold(0xFFFFFFFFu32, data)
}

/// Advances the running checksum by one byte.
pub fn crc32_update(crc: u32, byte: u8) -> (r: u32)
    ensures
        r == crc32_step(crc, byte),
{
    let mut c: u32 = crc ^ (byte as u32);
    let mut i: usize = 0;
    while i < 8
        invariant
            i <= 8,
            crc32_rounds(crc ^ (byte as u32), 8) == crc32_rounds(c, (8 - i) as nat),
        decreases 8 - i,
    {
        proof {
            assert(crc32_rounds(c, (8 - i) as nat) == crc32_rounds(
                crc32_round(c),
                (8 - i - 1) as nat,
            ));
        }
        if c & 1 != 0 {
            c = (c >> 1) ^ 0xEDB88320;
        } else {
            c = c >> 1;
        }
        i += 1;
    }
    c
}

/// Advances the running checksum by a whole buffer.
pub fn crc32_accumulate(crc: u32, data: &[u8]) -> (r: u32)
    ensures
        r == crc32_fold(crc, data@),
{
    let mut c: u32 = crc;
    let mut i: usize = 0;
    let n = data.len();
    proof {
        assert(data@.skip(0) =~= data@);
    }
    while i < n
        invariant
            i <= n,
            n == data@.len(),
            crc32_fold(crc, data@) == crc32_fold(c, data@.skip(i as int)),
        decreases n - i,
    {
        proof {
            assert(data@.skip(i as int)[0] == data@[i as int]);
            assert(data@.skip(i as int).skip(1) =~= data@.skip(i as int + 1));
        }
        c = crc32_update(c, data[i]);
        i += 1;
    }
    proof {
        assert(data@.skip(n as int) =~= Seq::<u8>::empty());
    }
    c
}

/// The accounting half of a firmware update: it follows the received
/// byte count and the running checksum, and decides when the image is
/// complete and whether it verifies.  The actual flash writes and the
/// boot-partition switch happen outside; the caller performs them
/// between the calls recorded here.
pub struct OtaManager {
    state: OtaState,
    total_size: u32,
    received: u32,
    target_crc: u32,
    target_partition_offset: u32,
    target_partition_size: u32,
    running_crc: u32,
}

impl OtaManager {
    /// The bookkeeping agrees with the state-machine phase.
    pub closed spec fn inv(&self) -> bool {
        match self.state {
            OtaState::Receiving { total_size, received, target_crc } => total_size
                == self.total_size && received == self.received && target_crc == self.target_crc
                && self.received <= self.total_size && 0 < self.total_size <= 0x100000
                && self.total_size <= self.target_partition_size,
            _ => true,
        }
    }

    pub closed spec fn state_spec(&self) -> OtaState {
        self.state
    }

    pub closed spec fn received_spec(&self) -> u32 {
        self.received
    }

    pub closed spec fn total_spec(&self) -> u32 {
        self.total_size
    }

    pub closed spec fn target_crc_spec(&self) -> u32 {
        self.target_crc
    }

    pub closed spec fn running_crc_spec(&self) -> u32 {
        self.running_crc
    }

    pub closed spec fn partition_offset_spec(&self) -> u32 {
        self.target_partition_offset
    }

    pub closed spec fn partition_size_spec(&self) -> u32 {
        self.target_partition_size
    }

    pub fn new() -> (r: OtaManager)
        ensures
            r.inv(),
            r.state_spec() == OtaState::Idle,
            r.received_spec() == 0,
            r.total_spec() == 0,
            r.running_crc_spec() == 0,
    {
        OtaManager {
            state: OtaState::Idle,
            total_size: 0,
            received: 0,
            target_crc: 0,
            target_partition_offset: 0,
            target_partition_size: 0,
            running_crc: 0,
        }
    }

    /// The current phase.
    pub fn state(&self) -> (r: OtaState)
        ensures
            r == self.state_spec(),
    {
        self.state
    }

    /// Whether image data is being received.
    pub fn is_in_progress(&self) -> (r: bool)
        ensures
            r == (self.state_spec() is Receiving),
    {
        match self.state {
            OtaState::Receiving { .. } => true,
            _ => false,
        }
    }

    /// Starts an update of `total_size` bytes with announced checksum
    /// `target_crc`, aimed at the partition the caller looked up.  An
    /// update already receiving is refused; a size of zero or beyond
    /// the one-megabyte cap is refused without touching the state; an
    /// image that cannot fit its partition moves the machine to the
    /// failed state.
    pub fn begin(
        &mut self,
        total_size: u32,
        target_crc: u32,
        partition_offset: u32,
        partition_size: u32,
    ) -> (r: Result<(), OtaError>)
        requires
            old(self).inv(),
        ensures
            final(self).inv(),
            old(self).state_spec() is Receiving ==> r == Err::<(), OtaError>(
                OtaError::AlreadyInProgress,
            ) && *final(self) == *old(self),
            !(old(self).state_spec() is Receiving) && (total_size == 0 || total_size > 0x100000)
                ==> r == Err::<(), OtaError>(OtaError::InvalidSize) && *final(self) == *old(self),
            !(old(self).state_spec() is Receiving) && 0 < total_size <= 0x100000 && total_size
                > partition_size ==> r == Err::<(), OtaError>(OtaError::InvalidSize) && final(self).state_spec() == OtaState::Error(OtaError::InvalidSize),
            !(old(self).state_spec() is Receiving) && 0 < total_size <= 0x100000 && total_size
                <= partition_size ==> r == Ok::<(), OtaError>(()) && final(self).state_spec()
                == (OtaState::Receiving { total_size, received: 0, target_crc }) && final(self).received_spec() == 0 && final(self).total_spec() == total_size && final(self).target_crc_spec() == target_crc && final(self).running_crc_spec() == 0xFFFFFFFF
                && final(self).partition_offset_spec() == partition_offset && final(self).partition_size_spec() == partition_size,
    {
        if self.is_in_progress() {
            return Err(OtaError::AlreadyInProgress);
        }
        if total_size == 0 || total_size > 0x100000 {
            return Err(OtaError::InvalidSize);
        }
        if total_size > partition_size {
            self.state = OtaState::Error(OtaError::InvalidSize);
            return Err(OtaError::InvalidSize);
        }
        self.total_size = total_size;
        self.received = 0;
        self.target_crc = target_crc;
        self.target_partition_offset = partition_offset;
        self.target_partition_size = partition_size;
        self.running_crc = 0xFFFFFFFF;
        self.state = OtaState::Receiving { total_size, received: 0, target_crc };
        Ok(())
    }

    /// Accounts one chunk the caller has written to flash: the running
    /// checksum folds the bytes in, the received count grows (capped
    /// at the announced size), and the result says whether the image
    /// is now complete.
    pub fn write_chunk(&mut self, data: &[u8]) -> (r: Result<bool, OtaError>)
        requires
            old(self).inv(),
            data@.len() <= 0x1000,
        ensures
            final(self).inv(),
            !(old(self).state_spec() is Receiving) ==> r == Err::<bool, OtaError>(
                OtaError::NotStarted,
            ) && *final(self) == *old(self),
            old(self).state_spec() is Receiving ==> {
                let complete = old(self).received_spec() + data@.len() >= old(self).total_spec();
                let new_received = if complete {
                    old(self).total_spec()
                } else {
                    (old(self).received_spec() + data@.len()) as u32
                };
                &&& r == Ok::<bool, OtaError>(complete)
                &&& final(self).running_crc_spec() == crc32_fold(
                    old(self).running_crc_spec(),
                    data@,
                )
                &&& final(self).received_spec() == new_received
                &&& final(self).state_spec() == (OtaState::Receiving {
                    total_size: old(self).total_spec(),
                    received: new_received,
                    target_crc: old(self).target_crc_spec(),
                })
                &&& final(self).total_spec() == old(self).total_spec()
                &&& final(self).target_crc_spec() == old(self).target_crc_spec()
                &&& final(self).partition_offset_spec() == old(self).partition_offset_spec()
                &&& final(self).partition_size_spec() == old(self).partition_size_spec()
            },
    {
        if !self.is_in_progress() {
            return Err(OtaError::NotStarted);
        }
        self.running_crc = crc32_accumulate(self.running_crc, data);
        let len: u32 = data.len() as u32;
        let complete: bool = self.total_size - self.received <= len;
        if complete {
            self.received = self.total_size;
        } else {
            self.received = self.received + len;
        }
        self.state = OtaState::Receiving {
            total_size: self.total_size,
            received: self.received,
            target_crc: self.target_crc,
        };
        Ok(complete)
    }

    /// Finalises the update: with verification on, the folded checksum
    /// must equal the announced one, else the update is aborted with a
    /// checksum fault.  On success the machine reports the image
    /// complete; switching the boot partition is the caller's step.
    pub fn flush(&mut self, verify_crc: bool) -> (r: Result<(), OtaError>)
        requires
            old(self).inv(),
        ensures
            final(self).inv(),
            !(old(self).state_spec() is Receiving) ==> r == Err::<(), OtaError>(
                OtaError::NotStarted,
            ) && *final(self) == *old(self),
            old(self).state_spec() is Receiving && verify_crc && !old(self).running_crc_spec()
                != old(self).target_crc_spec() ==> r == Err::<(), OtaError>(OtaError::CrcMismatch)
                && final(self).state_spec() == OtaState::Idle && final(self).received_spec() == 0,
            old(self).state_spec() is Receiving && (!verify_crc || !old(self).running_crc_spec()
                == old(self).target_crc_spec()) ==> r == Ok::<(), OtaError>(()) && final(self).state_spec() == OtaState::Complete && final(self).received_spec() == old(self).received_spec(),
    {
        if !self.is_in_progress() {
            return Err(OtaError::NotStarted);
        }
        let final_crc: u32 = !self.running_crc;
        if verify_crc && final_crc != self.target_crc {
            self.abort();
            return Err(OtaError::CrcMismatch);
        }
        self.state = OtaState::Complete;
        Ok(())
    }

    /// Drops any update in progress and returns to the idle state.
    pub fn abort(&mut self)
        ensures
            final(self).inv(),
            final(self).state_spec() == OtaState::Idle,
            final(self).received_spec() == 0,
            final(self).total_spec() == 0,
            final(self).running_crc_spec() == 0,
    {
        self.state = OtaState::Idle;
        self.total_size = 0;
        self.received = 0;
        self.target_crc = 0;
        self.target_partition_offset = 0;
        self.target_partition_size = 0;
        self.running_crc = 0;
    }

    /// The received and announced byte counts while receiving.
    pub fn progress(&self) -> (r: Option<(u32, u32)>)
        requires
            self.inv(),
        ensures
            self.state_spec() is Receiving ==> r == Some(
                (self.received_spec(), self.total_spec()),
            ),
            !(self.state_spec() is Receiving) ==> r is None,
    {
        match self.state {
            OtaState::Receiving { total_size, received, .. } => Some((received, total_size)),
            _ => None,
        }
    }
}

} // verus!
