//! Staged resource upload.
//!
//! Host data reaches a device-resident resource through a transient,
//! host-visible staging buffer: the data is copied into the staging
//! buffer, a one-shot command transitions the destination to a
//! transfer-writable layout, copies staging to destination, transitions
//! to the final read-only layout, and the staging buffer is destroyed
//! once the transfer has been waited on.  This module models the
//! device-resident contents as byte vectors so the whole round trip is
//! verified; the driver calls that realize it run at the application
//! edge against the same decisions.

use vstd::prelude::*;
use crate::error::RenderError;
use crate::memory::{find_memory_type, memory_type_suitable};
use crate::transition::{barrier_for, supported_transition, ImageLayout};

verus! {

/// Transient host-visible buffer used only during one upload.
#[derive(Debug)]
pub struct StagingBuffer {
    pub data: Vec<u8>,
}

impl StagingBuffer {
    /// Allocates the staging buffer and copies the host data into it
    /// through the mapped pointer.
    pub fn from_bytes(data: &Vec<u8>) -> (r: StagingBuffer)
        ensures
            r.data@ == data@,
    {
        let n: usize = data.len();
        let mut copied: Vec<u8> = Vec::new();
        let mut i: usize = 0;
        while i < n
            invariant
                0 <= i <= n,
                n == data@.len(),
                copied@ == data@.take(i as int),
            decreases n - i,
        {
            copied.push(data[i]);
            assert(copied@ =~= data@.take((i + 1) as int));
            i = i + 1;
        }
        proof {
            assert(data@.take(n as int) =~= data@);
        }
        StagingBuffer { data: copied }
    }
}

/// A device-resident buffer: its backing memory type and its contents.
#[derive(Debug)]
pub struct DeviceBuffer {
    pub data: Vec<u8>,
    pub usage: u32,
    pub memory_type_index: u32,
}

/// A device-resident image: dimensions, contents (four bytes per pixel),
/// current layout and backing memory type.
#[derive(Debug)]
pub struct DeviceImage {
    pub width: u32,
    pub height: u32,
    pub pixels: Vec<u8>,
    pub layout: ImageLayout,
    pub usage: u32,
    pub memory_type_index: u32,
}

/// The mathematical model of a device image.
pub struct ImageModel {
    pub width: u32,
    pub height: u32,
    pub pixels: Seq<u8>,
    pub layout: ImageLayout,
    pub usage: u32,
    pub memory_type_index: u32,
}

impl View for DeviceImage {
    type V = ImageModel;

    open spec fn view(&self) -> ImageModel {
        ImageModel {
            width: self.width,
            height: self.height,
            pixels: self.pixels@,
            layout: self.layout,
            usage: self.usage,
            memory_type_index: self.memory_type_index,
        }
    }
}

impl DeviceImage {
    /// The image holds exactly four bytes per pixel.
    pub open spec fn wf(self) -> bool {
        self.pixels@.len() == self.width as int * self.height as int * 4
    }
}

/// What a successful staged upload leaves in the destination image: the
/// uploaded bytes, in the final read-only layout, everything else as it
/// was.
pub open spec fn uploaded_image(m: ImageModel, data: Seq<u8>) -> ImageModel {
    ImageModel {
        width: m.width,
        height: m.height,
        pixels: data,
        layout: ImageLayout::ShaderReadOnlyOptimal,
        usage: m.usage,
        memory_type_index: m.memory_type_index,
    }
}

/// What a download reads out of an image.
pub open spec fn downloaded_image(m: ImageModel) -> Seq<u8> {
    m.pixels
}

/// Creates a device buffer of `size` zeroed bytes, backed by the first
/// advertised memory type that satisfies the filter and the property
/// flags.  Fails with `NoCompatibleMemoryType` exactly when none does.
pub fn create_buffer_resource(
    size: usize,
    usage: u32,
    type_filter: u32,
    required_properties: u32,
    memory_type_flags: &Vec<u32>,
) -> (r: Result<DeviceBuffer, RenderError>)
    requires
        memory_type_flags@.len() <= crate::memory::MAX_MEMORY_TYPES,
    ensures
        r is Ok <==> exists|i: int| 0 <= i < memory_type_flags@.len()
            && memory_type_suitable(
                type_filter,
                required_properties,
                memory_type_flags@[i],
                i as u32,
            ),
        match r {
            Ok(b) => {
                &&& b.data@ == Seq::new(size as nat, |i: int| 0u8)
                &&& b.usage == usage
                &&& memory_type_suitable(
                    type_filter,
                    required_properties,
                    memory_type_flags@[b.memory_type_index as int],
                    b.memory_type_index,
                )
                &&& forall|j: int| 0 <= j < b.memory_type_index ==> !memory_type_suitable(
                    type_filter,
                    required_properties,
                    memory_type_flags@[j],
                    j as u32,
                )
            },
            Err(e) => e == RenderError::NoCompatibleMemoryType,
        },
{
    let memory_type_index = match find_memory_type(
        type_filter,
        required_properties,
        memory_type_flags,
    ) {
        Ok(i) => i,
        Err(e) => {
            return Err(e);
        },
    };
    let mut data: Vec<u8> = Vec::new();
    let mut i: usize = 0;
    while i < size
        invariant
            0 <= i <= size,
            data@ == Seq::new(i as nat, |j: int| 0u8),
        decreases size - i,
    {
        data.push(0u8);
        assert(data@ =~= Seq::new((i + 1) as nat, |j: int| 0u8));
        i = i + 1;
    }
    Ok(DeviceBuffer { data, usage, memory_type_index })
}

/// Creates a device image of `width` by `height` pixels (four zeroed
/// bytes each) in the undefined layout, backed by the first advertised
/// memory type that satisfies the filter and the property flags.  Fails
/// with `NoCompatibleMemoryType` exactly when none does.
pub fn create_image_resource(
    width: u32,
    height: u32,
    usage: u32,
    type_filter: u32,
    required_properties: u32,
    memory_type_flags: &Vec<u32>,
) -> (r: Result<DeviceImage, RenderError>)
    requires
        memory_type_flags@.len() <= crate::memory::MAX_MEMORY_TYPES,
        width as int * height as int * 4 <= usize::MAX,
    ensures
        r is Ok <==> exists|i: int| 0 <= i < memory_type_flags@.len()
            && memory_type_suitable(
                type_filter,
                required_properties,
                memory_type_flags@[i],
                i as u32,
            ),
        match r {
            Ok(img) => {
                &&& img.wf()
                &&& img.width == width
                &&& img.height == height
                &&& img.pixels@ == Seq::new((width * height * 4) as nat, |i: int| 0u8)
                &&& img.layout == ImageLayout::Undefined
                &&& img.usage == usage
                &&& memory_type_suitable(
                    type_filter,
                    required_properties,
                    memory_type_flags@[img.memory_type_index as int],
                    img.memory_type_index,
                )
                &&& forall|j: int| 0 <= j < img.memory_type_index ==> !memory_type_suitable(
                    type_filter,
                    required_properties,
                    memory_type_flags@[j],
                    j as u32,
                )
            },
            Err(e) => e == RenderError::NoCompatibleMemoryType,
        },
{
    let memory_type_index = match find_memory_type(
        type_filter,
        required_properties,
        memory_type_flags,
    ) {
        Ok(i) => i,
        Err(e) => {
            return Err(e);
        },
    };
    let size: usize = (width as usize) * (height as usize) * 4;
    let mut pixels: Vec<u8> = Vec::new();
    let mut i: usize = 0;
    while i < size
        invariant
            0 <= i <= size,
            pixels@ == Seq::new(i as nat, |j: int| 0u8),
        decreases size - i,
    {
        pixels.push(0u8);
        assert(pixels@ =~= Seq::new((i + 1) as nat, |j: int| 0u8));
        i = i + 1;
    }
    Ok(DeviceImage { width, height, pixels, layout: ImageLayout::Undefined, usage, memory_type_index })
}

/// Uploads host bytes into a device buffer through a staging buffer:
/// stages the data, issues the one-shot copy, and waits for the transfer
/// queue before the staging buffer is destroyed.  The destination then
/// holds exactly the uploaded bytes.
pub fn upload_buffer_via_staging(data: &Vec<u8>, destination: &mut DeviceBuffer)
    requires
        data@.len() == old(destination).data@.len(),
    ensures
        final(destination).data@ == data@,
        final(destination).usage == old(destination).usage,
        final(destination).memory_type_index == old(destination).memory_type_index,
{
    let staging = StagingBuffer::from_bytes(data);
    destination.data = staging.data;
}

/// Uploads host bytes into a device image through a staging buffer:
/// stages the data, transitions the destination to the transfer-writable
/// layout, copies, transitions to the final read-only layout, and waits
/// for the transfer queue before the staging buffer is destroyed.
/// Succeeds exactly when the destination's current layout has a listed
/// transition to the transfer-writable layout; an image in any other
/// layout is rejected with `UnsupportedLayoutTransition` and left
/// untouched.  On success the destination holds exactly the uploaded
/// bytes in the read-only layout.
pub fn upload_image_via_staging(
    data: &Vec<u8>,
    destination: &mut DeviceImage,
) -> (r: Result<(), RenderError>)
    requires
        old(destination).wf(),
        data@.len() == old(destination).pixels@.len(),
    ensures
        final(destination).wf(),
        r is Ok <==> supported_transition(
            old(destination).layout,
            ImageLayout::TransferDstOptimal,
        ),
        match r {
            Ok(u) => final(destination)@ == uploaded_image(old(destination)@, data@),
            Err(e) => {
                &&& e == RenderError::UnsupportedLayoutTransition
                &&& final(destination)@ == old(destination)@
            },
        },
{
    let staging = StagingBuffer::from_bytes(data);
    let _to_transfer = match barrier_for(destination.layout, ImageLayout::TransferDstOptimal) {
        Ok(p) => p,
        Err(e) => {
            return Err(e);
        },
    };
    destination.layout = ImageLayout::TransferDstOptimal;
    destination.pixels = staging.data;
    let _to_shader = match barrier_for(
        ImageLayout::TransferDstOptimal,
        ImageLayout::ShaderReadOnlyOptimal,
    ) {
        Ok(p) => p,
        Err(e) => {
            return Err(e);
        },
    };
    destination.layout = ImageLayout::ShaderReadOnlyOptimal;
    Ok(())
}

/// Reads a device buffer's contents back to the host.
pub fn download_buffer(buffer: &DeviceBuffer) -> (r: Vec<u8>)
    ensures
        r@ == buffer.data@,
{
    let staging = StagingBuffer::from_bytes(&buffer.data);
    staging.data
}

/// Reads a device image's contents back to the host: the matching
/// download path of the staged upload.
pub fn download_image(image: &DeviceImage) -> (r: Vec<u8>)
    ensures
        r@ == downloaded_image(image@),
{
    let staging = StagingBuffer::from_bytes(&image.pixels);
    staging.data
}

/// Staged upload round-trip: uploading byte buffer `data` to a device
/// image and reading it back yields exactly `data`.
pub proof fn lemma_staged_upload_round_trip(m: ImageModel, data: Seq<u8>)
    ensures
        downloaded_image(uploaded_image(m, data)) == data,
{
}

} // verus!
