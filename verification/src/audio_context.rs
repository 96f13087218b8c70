//! The audio-setting context adapter and its device-selection logic.

use vstd::prelude::*;

use crate::status::SdkError;
use crate::status::SdkResult;
use crate::substring::contains_seq;
use crate::substring::str_contains;

verus! {

/// Main audio context instance.
///
/// It stands for a borrowed, non-owning reference to the native
/// audio-setting context: the address of that object, never null while held.
/// The native settings service owns the object; this adapter must not be
/// used after that service is gone.
#[derive(Debug)]
pub struct AudioContext {
    /// Address of the underlying native audio-setting context.
    handle: u64,
}

impl AudioContext {
    /// The address of the native audio-setting context held by this adapter.
    pub closed spec fn spec_handle(&self) -> u64 {
        self.handle
    }

    /// A held context is never null.
    pub open spec fn wf(&self) -> bool {
        self.spec_handle() != 0
    }

    /// Create the audio context interface from the raw pointer value that the
    /// native accessor returned. A null (zero) address means the audio
    /// context is unavailable, so no adapter is produced; any other address
    /// is wrapped as it is.
    pub fn new(raw_handle: u64) -> (r: Option<AudioContext>)
        ensures
            (r is Some) <==> raw_handle != 0,
            r matches Some(ctx) ==> ctx.spec_handle() == raw_handle && ctx.wf(),
    {
        if raw_handle == 0 {
            None
        } else {
            Some(AudioContext { handle: raw_handle })
        }
    }

    /// The raw handle, for the layer that performs the native calls.
    pub fn handle(&self) -> (r: u64)
        ensures
            r == self.spec_handle(),
    {
        self.handle
    }

    /// Decide the select-microphone operation for `driver` against the
    /// device list `mics` enumerated from the native SDK, in native order.
    ///
    /// The system default driver succeeds with no device to select
    /// (`Ok(None)`): the SDK keeps whatever device it already uses, and no
    /// native selection call is owed. Otherwise the first entry whose
    /// identifier contains the driver's marker substring is the one to hand
    /// to the native select call (`Ok(Some(position))`). When no entry
    /// matches, the absence of the expected virtual or loopback device is a
    /// configuration fault: the operation fails with the synthetic
    /// unexpected error, and no device is handed out to select.
    pub fn select_microphone(&self, driver: &MicDriver, mics: &Vec<MicList>) -> (r: SdkResult<
        Option<usize>,
    >)
        ensures
            *driver is Default ==> r == Ok::<Option<usize>, SdkError>(None::<usize>),
            !(*driver is Default) ==> (match r {
                Ok(Some(i)) => first_match(*driver, mics@) == Some(i as int),
                Ok(None) => false,
                Err(e) => e == SdkError::UnexpectedError && first_match(*driver, mics@) is None,
            }),
    {
        if let MicDriver::Default = driver {
            return Ok(None);
        }
        match find_microphone(driver, mics) {
            Some(i) => Ok(Some(i)),
            None => Err(SdkError::UnexpectedError),
        }
    }
}

/// The driver that will be used for the microphone.
#[derive(Debug, Eq, PartialEq, Copy, Clone)]
pub enum MicDriver {
    /// hw::loopback
    SndAloop,
    /// Pulse audio virtual mic.
    Pulse,
    /// Default system microphone.
    Default,
}

impl MicDriver {
    /// The marker substring that a matching device identifier must contain;
    /// the system default driver has none, because it keeps whatever device
    /// the SDK already uses.
    pub open spec fn spec_marker(self) -> Option<Seq<char>> {
        match self {
            MicDriver::SndAloop => Some("snd_aloop"@),
            MicDriver::Pulse => Some("virtual_mic_source"@),
            MicDriver::Default => None,
        }
    }

    /// The marker substring for this driver, if it has one.
    pub fn marker(&self) -> (r: Option<&'static str>)
        ensures
            (r is Some) <==> (self.spec_marker() is Some),
            r matches Some(m) ==> self.spec_marker() == Some(m@),
    {
        match self {
            MicDriver::SndAloop => Some("snd_aloop"),
            MicDriver::Pulse => Some("virtual_mic_source"),
            MicDriver::Default => None,
        }
    }

    /// The device name assigned by the driver's device identifier; the
    /// system default driver names no device of its own.
    pub fn device_str(&self) -> (r: Result<&'static str, &'static str>)
        ensures
            (r is Ok) <==> !(self is Default),
            self is SndAloop ==> (r matches Ok(s) && s@ == "hw:Loopback,1"@),
            self is Pulse ==> (r matches Ok(s) && s@ == "pulse:virtual_mic"@),
            self is Default ==> (r matches Err(e) && e@ == "No Sense"@),
    {
        match self {
            MicDriver::Pulse => Ok("pulse:virtual_mic"),
            MicDriver::SndAloop => Ok("hw:Loopback,1"),
            MicDriver::Default => Err("No Sense"),
        }
    }
}

/// This structure stores information about the detected microphones.
#[derive(Debug)]
pub struct MicList {
    /// Device ID.
    pub device_id: String,
    /// Device Name.
    pub device_name: String,
    /// Is currently selected device ?
    pub selected: bool,
}

/// `mic` is a device the `driver` preference accepts: its identifier
/// contains the driver's marker substring. The system default driver accepts
/// no enumerated device, because it never selects one.
pub open spec fn mic_matches(driver: MicDriver, mic: MicList) -> bool {
    match driver.spec_marker() {
        Some(marker) => contains_seq(mic.device_id@, marker),
        None => false,
    }
}

/// The position of the first entry of `mics`, at `i` or after, that the
/// `driver` preference accepts.
pub open spec fn first_match_from(driver: MicDriver, mics: Seq<MicList>, i: int) -> Option<int>
    decreases mics.len() - i,
{
    if i >= mics.len() {
        None
    } else if mic_matches(driver, mics[i]) {
        Some(i)
    } else {
        first_match_from(driver, mics, i + 1)
    }
}

/// The position of the first entry of `mics`, in the provided (native)
/// order, that the `driver` preference accepts.
pub open spec fn first_match(driver: MicDriver, mics: Seq<MicList>) -> Option<int> {
    first_match_from(driver, mics, 0)
}

proof fn lemma_first_match_from_props(driver: MicDriver, mics: Seq<MicList>, i: int)
    requires
        0 <= i <= mics.len(),
    ensures
        match first_match_from(driver, mics, i) {
            Some(k) => {
                &&& i <= k < mics.len()
                &&& mic_matches(driver, mics[k])
                &&& forall|j: int| i <= j < k ==> !mic_matches(driver, mics[j])
            },
            None => forall|j: int| i <= j < mics.len() ==> !mic_matches(driver, mics[j]),
        },
    decreases mics.len() - i,
{
    if i < mics.len() && !mic_matches(driver, mics[i]) {
        lemma_first_match_from_props(driver, mics, i + 1);
    }
}

proof fn lemma_no_match_from(driver: MicDriver, mics: Seq<MicList>, i: int)
    requires
        0 <= i <= mics.len(),
        forall|j: int| i <= j < mics.len() ==> !mic_matches(driver, mics[j]),
    ensures
        first_match_from(driver, mics, i) is None,
    decreases mics.len() - i,
{
    if i < mics.len() {
        lemma_no_match_from(driver, mics, i + 1);
    }
}

/// First-match policy: the chosen entry, when there is one, is accepted by
/// the driver, stands in the list, and every entry before it is not accepted
/// — so when several entries match, the earliest in the provided order wins;
/// and nothing is chosen exactly when no entry is accepted.
pub proof fn lemma_first_match_is_earliest(driver: MicDriver, mics: Seq<MicList>)
    ensures
        match first_match(driver, mics) {
            Some(k) => {
                &&& 0 <= k < mics.len()
                &&& mic_matches(driver, mics[k])
                &&& forall|j: int| 0 <= j < k ==> !mic_matches(driver, mics[j])
            },
            None => forall|j: int| 0 <= j < mics.len() ==> !mic_matches(driver, mics[j]),
        },
{
    lemma_first_match_from_props(driver, mics, 0);
}

/// When exactly one entry of the list is accepted by the driver, that entry
/// is chosen, wherever it stands and whatever else the list holds.
pub proof fn lemma_unique_match_is_chosen(driver: MicDriver, mics: Seq<MicList>, k: int)
    requires
        0 <= k < mics.len(),
        mic_matches(driver, mics[k]),
        forall|j: int| 0 <= j < mics.len() && j != k ==> !mic_matches(driver, mics[j]),
    ensures
        first_match(driver, mics) == Some(k),
{
    lemma_first_match_is_earliest(driver, mics);
    match first_match(driver, mics) {
        Some(m) => {
            if m != k {
                assert(!mic_matches(driver, mics[m]));
            }
        },
        None => {
            assert(!mic_matches(driver, mics[k]));
        },
    }
}

/// Nothing is chosen if and only if no entry of the list is accepted by the
/// driver.
pub proof fn lemma_match_absence(driver: MicDriver, mics: Seq<MicList>)
    ensures
        (first_match(driver, mics) is None) <==> (forall|j: int|
            0 <= j < mics.len() ==> !mic_matches(driver, mics[j])),
{
    lemma_first_match_is_earliest(driver, mics);
    if forall|j: int| 0 <= j < mics.len() ==> !mic_matches(driver, mics[j]) {
        lemma_no_match_from(driver, mics, 0);
    }
}

/// Scan `mics` in the provided order and return the position of the first
/// entry whose device identifier contains the driver's marker substring.
pub fn find_microphone(driver: &MicDriver, mics: &Vec<MicList>) -> (r: Option<usize>)
    ensures
        match r {
            Some(i) => first_match(*driver, mics@) == Some(i as int),
            None => first_match(*driver, mics@) is None,
        },
{
    match driver.marker() {
        None => {
            proof {
                lemma_no_match_from(*driver, mics@, 0);
            }
            None
        },
        Some(marker) => {
            let mut i: usize = 0;
            while i < mics.len()
                invariant
                    i <= mics@.len(),
                    driver.spec_marker() == Some(marker@),
                    first_match(*driver, mics@) == first_match_from(*driver, mics@, i as int),
                decreases mics@.len() - i,
            {
                if str_contains(mics[i].device_id.as_str(), marker) {
                    return Some(i);
                }
                i = i + 1;
            }
            None
        },
    }
}

/// According to the SDK, this enumeration contains the different levels of
/// noise cancellation; for music, the level should be at a minimum.
#[derive(Debug, Eq, PartialEq, Copy, Clone)]
pub enum SupressBackgroundNoiseLevel {
    /// No noise cancellation: However, it does not work on Linux.
    Off,
    /// Default is typically medium.
    Auto,
    /// Minimal noise cancellation, the music quality remains good.
    Low,
    /// Medium noise cancellation, the sound quality is not good.
    Medium,
    /// For people working on a construction site.
    Heigh,
}

impl SupressBackgroundNoiseLevel {
    /// The native integer code for this level, in the order the native
    /// enumeration declares them.
    pub open spec fn spec_code(self) -> u32 {
        match self {
            SupressBackgroundNoiseLevel::Off => 0,
            SupressBackgroundNoiseLevel::Auto => 1,
            SupressBackgroundNoiseLevel::Low => 2,
            SupressBackgroundNoiseLevel::Medium => 3,
            SupressBackgroundNoiseLevel::Heigh => 4,
        }
    }

    /// The integer code passed through unchanged to the native call.
    pub fn native_code(&self) -> (r: u32)
        ensures
            r == self.spec_code(),
    {
        match self {
            SupressBackgroundNoiseLevel::Off => 0,
            SupressBackgroundNoiseLevel::Auto => 1,
            SupressBackgroundNoiseLevel::Low => 2,
            SupressBackgroundNoiseLevel::Medium => 3,
            SupressBackgroundNoiseLevel::Heigh => 4,
        }
    }
}

} // verus!
