//! Interfaces that can be captured on, and the lookup of one by name.
use vstd::prelude::*;

verus! {

/// A capturable network device as the operating system lists it.
#[derive(Debug)]
pub struct NetworkInterface {
    /// Unique name of the device.
    pub name: String,
    /// Operating-system index of the device.
    pub index: u32,
}

/// The failures of a capture session.
#[derive(Clone, Copy, Debug, PartialEq, Eq, Structural)]
pub enum CaptureError {
    /// No listed interface has the requested name.
    InterfaceNotFound,
    /// The capture channel could not be opened on the interface.
    ChannelOpenError,
    /// One read from the capture channel failed.
    ReadError,
    /// The interrupt handler could not be installed.
    SignalInstallError,
}

/// The lookup of `requested` in `available`: the first interface with exactly
/// that name, or `InterfaceNotFound`.
pub open spec fn resolution(requested: Seq<char>, available: Seq<NetworkInterface>) -> Result<
    NetworkInterface,
    CaptureError,
>
    decreases available.len(),
{
    if available.len() == 0 {
        Err(CaptureError::InterfaceNotFound)
    } else if available[0].name@ == requested {
        Ok(available[0])
    } else {
        resolution(requested, available.drop_first())
    }
}

/// The lookup fails exactly when no listed interface has the requested name.
pub proof fn lemma_resolution_fails_iff_missing(
    requested: Seq<char>,
    available: Seq<NetworkInterface>,
)
    ensures
        resolution(requested, available) is Err <==> forall|i: int|
            0 <= i < available.len() ==> #[trigger] available[i].name@ != requested,
        resolution(requested, available) is Err ==> resolution(requested, available)
            == Err::<NetworkInterface, CaptureError>(CaptureError::InterfaceNotFound),
        resolution(requested, available) is Ok ==> resolution(
            requested,
            available,
        )->Ok_0.name@ == requested,
    decreases available.len(),
{
    if available.len() > 0 {
        let rest = available.drop_first();
        lemma_resolution_fails_iff_missing(requested, rest);
        if available[0].name@ != requested {
            assert forall|i: int| 0 < i < available.len() implies available[i] == rest[i - 1] by {}
            if exists|j: int| 0 <= j < rest.len() && #[trigger] rest[j].name@ == requested {
                let j = choose|j: int| 0 <= j < rest.len() && #[trigger] rest[j].name@ == requested;
                assert(available[j + 1] == rest[j]);
            }
        }
    }
}

/// Looks `requested` up among `available` by exact, case-sensitive name.
pub fn resolve(requested: &str, available: &Vec<NetworkInterface>) -> (r: Result<
    NetworkInterface,
    CaptureError,
>)
    ensures
        r == resolution(requested@, available@),
        r is Err <==> forall|i: int|
            0 <= i < available@.len() ==> #[trigger] available@[i].name@ != requested@,
        r is Err ==> r == Err::<NetworkInterface, CaptureError>(CaptureError::InterfaceNotFound),
        r is Ok ==> r->Ok_0.name@ == requested@,
{
    proof {
        lemma_resolution_fails_iff_missing(requested@, available@);
    }
    let wanted = requested.to_string();
    let mut i: usize = 0;
    assert(available@.subrange(0, available@.len() as int) == available@);
    while i < available.len()
        invariant
            wanted@ == requested@,
            i <= available.len(),
            resolution(requested@, available@) == resolution(
                requested@,
                available@.subrange(i as int, available@.len() as int),
            ),
        decreases available.len() - i,
    {
        let rest = Ghost(available@.subrange(i as int, available@.len() as int));
        assert(rest@.drop_first() == available@.subrange(i + 1, available@.len() as int));
        if available[i].name == wanted {
            let found = &available[i];
            return Ok(NetworkInterface { name: found.name.clone(), index: found.index });
        }
        i = i + 1;
    }
    Err(CaptureError::InterfaceNotFound)
}

} // verus!
