//! Device and queue-family selection.
//!
//! The enumeration calls against the driver live outside this crate; they
//! hand in plain profiles of what each physical device and queue family
//! supports, and this module makes the verified choices: which queue
//! families serve graphics and presentation, how a device is scored, and
//! which candidate is selected.

use std::collections::HashSet;
use vstd::prelude::*;

verus! {

/// Startup failure: no usable physical device, or no queue family serving
/// both graphics and presentation.
#[derive(Clone, Copy, Debug, PartialEq, Eq, Structural)]
pub enum PhysicalDeviceError {
    NoSuitableDevice,
    NoSuitableQueueFamily,
}

impl PhysicalDeviceError {
    /// A fixed description of the failure, for reporting.
    pub fn message(&self) -> (r: &'static str)
        ensures
            *self is NoSuitableDevice ==> r@ == "No suitable physical devices found."@,
            *self is NoSuitableQueueFamily ==> r@ == "No suitable queue family found on the device."@,
    {
        match self {
            PhysicalDeviceError::NoSuitableDevice => "No suitable physical devices found.",
            PhysicalDeviceError::NoSuitableQueueFamily => "No suitable queue family found on the device.",
        }
    }
}

/// What one queue family supports, as the driver reports it.
#[derive(Clone, Copy, Debug, PartialEq, Eq, Structural)]
pub struct QueueFamilyProfile {
    pub supports_graphics: bool,
    pub supports_presentation: bool,
}

/// The chosen queue family index for graphics work and the chosen index for
/// presentation; the two may coincide.
#[derive(Clone, Copy, Debug, PartialEq, Eq, Structural)]
pub struct QueueFamilyIndices {
    pub graphics: u32,
    pub presentation: u32,
}

/// Some listed family supports graphics work.
pub open spec fn graphics_family_exists(families: Seq<QueueFamilyProfile>) -> bool {
    exists|i: int| 0 <= i < families.len() && families[i].supports_graphics
}

/// Some listed family supports presentation.
pub open spec fn presentation_family_exists(families: Seq<QueueFamilyProfile>) -> bool {
    exists|i: int| 0 <= i < families.len() && families[i].supports_presentation
}

impl QueueFamilyIndices {
    /// Picks the first family that supports graphics and the first that
    /// supports presentation; fails when either is missing.
    pub fn new(families: &Vec<QueueFamilyProfile>) -> (r: Result<Self, PhysicalDeviceError>)
        requires
            families@.len() <= u32::MAX,
        ensures
            match r {
                Ok(qf) => {
                    &&& qf.graphics < families@.len()
                    &&& families@[qf.graphics as int].supports_graphics
                    &&& forall|j: int|
                        0 <= j < qf.graphics ==> !families@[j].supports_graphics
                    &&& qf.presentation < families@.len()
                    &&& families@[qf.presentation as int].supports_presentation
                    &&& forall|j: int|
                        0 <= j < qf.presentation ==> !families@[j].supports_presentation
                },
                Err(e) => {
                    &&& e is NoSuitableQueueFamily
                    &&& !(graphics_family_exists(families@) && presentation_family_exists(
                        families@,
                    ))
                },
            },
    {
        let n = families.len();
        let mut graphics: Option<u32> = None;
        let mut i: usize = 0;
        while i < n
            invariant
                n == families@.len() <= u32::MAX,
                0 <= i <= n,
                match graphics {
                    Some(g) => {
                        &&& g < i
                        &&& families@[g as int].supports_graphics
                        &&& forall|j: int| 0 <= j < g ==> !families@[j].supports_graphics
                    },
                    None => forall|j: int| 0 <= j < i ==> !families@[j].supports_graphics,
                },
            decreases n - i,
        {
            if graphics.is_none() && families[i].supports_graphics {
                graphics = Some(i as u32);
            }
            i = i + 1;
        }

        let mut presentation: Option<u32> = None;
        let mut k: usize = 0;
        while k < n
            invariant
                n == families@.len() <= u32::MAX,
                0 <= k <= n,
                match presentation {
                    Some(p) => {
                        &&& p < k
                        &&& families@[p as int].supports_presentation
                        &&& forall|j: int| 0 <= j < p ==> !families@[j].supports_presentation
                    },
                    None => forall|j: int| 0 <= j < k ==> !families@[j].supports_presentation,
                },
            decreases n - k,
        {
            if presentation.is_none() && families[k].supports_presentation {
                presentation = Some(k as u32);
            }
            k = k + 1;
        }

        match (graphics, presentation) {
            (Some(g), Some(p)) => Ok(QueueFamilyIndices { graphics: g, presentation: p }),
            _ => Err(PhysicalDeviceError::NoSuitableQueueFamily),
        }
    }

    /// The set of distinct family indices in use: one element when graphics
    /// and presentation share a family, two otherwise.
    pub fn unique_values(&self) -> (r: HashSet<u32>)
        ensures
            r@ == Set::empty().insert(self.graphics).insert(self.presentation),
    {
        let mut values: HashSet<u32> = HashSet::new();
        values.insert(self.graphics);
        values.insert(self.presentation);
        values
    }
}

/// What one physical device offers, as the enumeration reports it.
#[derive(Clone, Copy, Debug, PartialEq, Eq, Structural)]
pub struct DeviceProfile {
    /// Whether graphics and presentation queue families were both found.
    pub has_queue_families: bool,
    /// Whether every required device extension is available.
    pub supports_extensions: bool,
    /// Whether the surface reports at least one format for this device.
    pub has_formats: bool,
    /// Whether the surface reports at least one present mode.
    pub has_present_modes: bool,
    /// Whether the device supports geometry shaders.
    pub geometry_shader: bool,
    /// Whether the device is a discrete GPU.
    pub discrete_gpu: bool,
    /// The largest 2D image dimension the device handles.
    pub max_image_dimension_2d: u32,
}

/// The suitability score of a device profile: zero when queue families,
/// extensions, formats or present modes are missing; otherwise a sum of
/// feature weights plus the maximum 2D image dimension.
pub open spec fn spec_suitability_score(d: DeviceProfile) -> int {
    if !d.has_queue_families || !d.supports_extensions || !d.has_formats
        || !d.has_present_modes {
        0
    } else {
        (if !d.geometry_shader {
            2000int
        } else {
            0int
        }) + (if d.discrete_gpu {
            1000int
        } else {
            0int
        }) + d.max_image_dimension_2d
    }
}

/// Scores one device profile.
pub fn device_suitability_score(d: &DeviceProfile) -> (score: i32)
    requires
        d.max_image_dimension_2d + 3000 <= i32::MAX,
    ensures
        score == spec_suitability_score(*d),
{
    if !d.has_queue_families || !d.supports_extensions || !d.has_formats
        || !d.has_present_modes {
        return 0;
    }
    let mut score: i32 = 0;
    if !d.geometry_shader {
        score = score + 2000;
    }
    if d.discrete_gpu {
        score = score + 1000;
    }
    score + (d.max_image_dimension_2d as i32)
}

/// Selects a physical device from the candidates' scores: the chosen index
/// is the last one carrying the lowest score, and selection fails when no
/// candidate exists or the lowest score is not positive.
pub fn select_physical_device(scores: &Vec<i32>) -> (r: Result<usize, PhysicalDeviceError>)
    ensures
        match r {
            Ok(i) => {
                &&& 0 <= i < scores@.len()
                &&& scores@[i as int] > 0
                &&& forall|j: int| 0 <= j < scores@.len() ==> scores@[j] >= scores@[i as int]
                &&& forall|j: int| i < j < scores@.len() ==> scores@[j] > scores@[i as int]
            },
            Err(e) => {
                &&& e is NoSuitableDevice
                &&& scores@.len() > 0 ==> exists|j: int|
                    0 <= j < scores@.len() && scores@[j] <= 0 && forall|k: int|
                        0 <= k < scores@.len() ==> scores@[k] >= scores@[j]
            },
        },
{
    let n = scores.len();
    if n == 0 {
        return Err(PhysicalDeviceError::NoSuitableDevice);
    }
    let mut best: usize = 0;
    let mut i: usize = 1;
    while i < n
        invariant
            n == scores@.len(),
            0 <= best < i <= n,
            forall|j: int| 0 <= j < i ==> scores@[j] >= scores@[best as int],
            forall|j: int| best < j < i ==> scores@[j] > scores@[best as int],
        decreases n - i,
    {
        if scores[i] <= scores[best] {
            best = i;
        }
        i = i + 1;
    }
    if scores[best] > 0 {
        Ok(best)
    } else {
        Err(PhysicalDeviceError::NoSuitableDevice)
    }
}

/// `name` occurs in `names`, compared byte for byte.
pub open spec fn name_listed(names: Seq<Vec<u8>>, name: Seq<u8>) -> bool {
    exists|j: int| 0 <= j < names.len() && names[j]@ == name
}

/// Every required name occurs in the available list.
pub open spec fn all_names_listed(required: Seq<Vec<u8>>, available: Seq<Vec<u8>>) -> bool {
    forall|i: int| 0 <= i < required.len() ==> name_listed(available, required[i]@)
}

/// Byte-for-byte equality of two names.
fn bytes_equal(a: &Vec<u8>, b: &Vec<u8>) -> (r: bool)
    ensures
        r == (a@ == b@),
{
    let n = a.len();
    if n != b.len() {
        assert(a@ != b@);
        return false;
    }
    let mut i: usize = 0;
    while i < n
        invariant
            n == a@.len() == b@.len(),
            0 <= i <= n,
            forall|j: int| 0 <= j < i ==> a@[j] == b@[j],
        decreases n - i,
    {
        if a[i] != b[i] {
            return false;
        }
        i = i + 1;
    }
    assert(a@ =~= b@);
    true
}

/// Whether `name` occurs in `names`, compared byte for byte.
pub fn name_list_contains(names: &Vec<Vec<u8>>, name: &Vec<u8>) -> (r: bool)
    ensures
        r == name_listed(names@, name@),
{
    let n = names.len();
    let mut i: usize = 0;
    while i < n
        invariant
            n == names@.len(),
            0 <= i <= n,
            forall|j: int| 0 <= j < i ==> names@[j]@ != name@,
        decreases n - i,
    {
        if bytes_equal(&names[i], name) {
            return true;
        }
        i = i + 1;
    }
    false
}

/// Whether a device offers every required extension: each required name
/// must occur among the available extension names.
pub fn device_supports_extensions(required: &Vec<Vec<u8>>, available: &Vec<Vec<u8>>) -> (r:
    bool)
    ensures
        r == all_names_listed(required@, available@),
{
    let n = required.len();
    let mut i: usize = 0;
    while i < n
        invariant
            n == required@.len(),
            0 <= i <= n,
            forall|j: int| 0 <= j < i ==> name_listed(available@, required@[j]@),
        decreases n - i,
    {
        if !name_list_contains(available, &required[i]) {
            return false;
        }
        i = i + 1;
    }
    true
}

} // verus!
