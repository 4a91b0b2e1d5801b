//! Tensor shapes, dimension layouts, and the type-level kinds of tensors.
use vstd::prelude::*;
use core::marker::PhantomData;

use crate::error::{fails_with, ErrorKind, MNNError, Result};
use crate::halide::{HalideType, HalideTypeT};
use crate::seal::Sealed;

verus! {

/// Layout of the dimensions of a tensor.
///
/// N is the batch size, C the channels, H the height and W the width.
#[derive(Debug, Clone, Copy, PartialEq, Eq, Hash)]
pub enum DimensionType {
    /// Caffe style dimensions, or NCHW
    Caffe,
    /// Caffe style dimensions with the channels packed by four, or NC4HW4
    CaffeC4,
    /// Tensorflow style dimensions, or NHWC
    TensorFlow,
}

/// Native code of the Tensorflow layout.
pub const DIMENSION_TENSORFLOW: u32 = 0;
/// Native code of the Caffe layout.
pub const DIMENSION_CAFFE: u32 = 1;
/// Native code of the packed Caffe layout.
pub const DIMENSION_CAFFE_C4: u32 = 2;

impl DimensionType {
    /// Batch, height, width, channels.
    pub const NHWC: Self = Self::TensorFlow;
    /// Batch, channels, height, width.
    pub const NCHW: Self = Self::Caffe;
    /// Batch, channels packed by four, height, width.
    pub const NC4HW4: Self = Self::CaffeC4;

    /// The native code of the layout.
    pub open spec fn spec_code(self) -> u32 {
        match self {
            DimensionType::Caffe => DIMENSION_CAFFE,
            DimensionType::CaffeC4 => DIMENSION_CAFFE_C4,
            DimensionType::TensorFlow => DIMENSION_TENSORFLOW,
        }
    }

    /// Converts the layout to its native code.
    pub fn to_mnn_sys(&self) -> (c: u32)
        ensures
            c == self.spec_code(),
    {
        match self {
            DimensionType::Caffe => DIMENSION_CAFFE,
            DimensionType::CaffeC4 => DIMENSION_CAFFE_C4,
            DimensionType::TensorFlow => DIMENSION_TENSORFLOW,
        }
    }

    /// Reads a native code back as a layout; the native engine knows three layouts.
    pub fn from_mnn_sys(code: u32) -> (d: DimensionType)
        requires
            code < 3,
        ensures
            d.spec_code() == code,
    {
        if code == DIMENSION_TENSORFLOW {
            DimensionType::TensorFlow
        } else if code == DIMENSION_CAFFE {
            DimensionType::Caffe
        } else {
            DimensionType::CaffeC4
        }
    }
}

/// Number of dimensions that a shape can hold.
pub const MAX_DIMENSIONS: usize = 4;

/// The four slots of the shape made from the given dimensions: the first four
/// dimensions, and ones after the last dimension.
pub open spec fn spec_shape_slots(dims: Seq<i32>) -> Seq<i32> {
    Seq::new(4, |i: int| if i < dims.len() { dims[i] } else { 1i32 })
}

/// Number of dimensions that the shape made from the given dimensions keeps.
pub open spec fn spec_shape_size(dims: Seq<i32>) -> nat {
    if dims.len() > 4 {
        4
    } else {
        dims.len()
    }
}

/// The shape of a tensor: up to four dimensions.
#[derive(Debug, Clone, Copy)]
pub struct TensorShape {
    shape: [i32; 4],
    size: usize,
}

impl TensorShape {
    #[verifier::type_invariant]
    spec fn inv(self) -> bool {
        self.size <= 4
    }

    /// All four slots, the unused ones included.
    pub closed spec fn spec_slots(&self) -> Seq<i32> {
        self.shape@
    }

    /// Number of dimensions.
    pub closed spec fn spec_size(&self) -> nat {
        self.size as nat
    }

    /// The shape made from a list of dimensions: the first four are kept, and the
    /// unused slots hold one.
    pub fn from_dims(dims: &[i32]) -> (s: TensorShape)
        ensures
            s.spec_slots() == spec_shape_slots(dims@),
            s.spec_size() == spec_shape_size(dims@),
            s@ == dims@.take(spec_shape_size(dims@) as int),
    {
        let len = dims.len();
        let mut shape: [i32; 4] = [1, 1, 1, 1];
        let mut i: usize = 0;
        while i < 4
            invariant
                len == dims@.len(),
                i <= 4,
                forall|j: int| 0 <= j < i ==> #[trigger] shape@[j] == spec_shape_slots(dims@)[j],
                forall|j: int| i <= j < 4 ==> #[trigger] shape@[j] == 1i32,
            decreases 4 - i,
        {
            if i < len {
                shape[i] = dims[i];
            }
            i = i + 1;
        }
        let size = if len > 4 {
            4
        } else {
            len
        };
        let s = TensorShape { shape, size };
        assert(s.spec_slots() =~= spec_shape_slots(dims@));
        assert(s@ =~= dims@.take(spec_shape_size(dims@) as int));
        s
    }

    /// Number of dimensions.
    pub fn len(&self) -> (n: usize)
        ensures
            n == self@.len(),
            n <= 4,
    {
        proof {
            use_type_invariant(self);
        }
        self.size
    }

    /// Whether the shape has no dimension.
    pub fn is_empty(&self) -> (b: bool)
        ensures
            b == (self@.len() == 0),
    {
        proof {
            use_type_invariant(self);
        }
        self.size == 0
    }

    /// The dimensions.
    pub fn as_ref(&self) -> (d: &[i32])
        ensures
            d@ == self@,
    {
        proof {
            use_type_invariant(self);
        }
        vstd::slice::slice_subrange(self.shape.as_slice(), 0, self.size)
    }

    /// The dimension at `index`.
    pub fn get(&self, index: usize) -> (d: i32)
        requires
            index < self@.len(),
        ensures
            d == self@[index as int],
    {
        proof {
            use_type_invariant(self);
        }
        self.shape[index]
    }

    /// Replaces the dimension at `index`.
    pub fn set(&mut self, index: usize, value: i32)
        requires
            index < old(self)@.len(),
        ensures
            final(self)@ == old(self)@.update(index as int, value),
            final(self).spec_slots() == old(self).spec_slots().update(index as int, value),
    {
        proof {
            use_type_invariant(&*self);
        }
        self.shape[index] = value;
        assert(self@ =~= old(self)@.update(index as int, value));
    }

    /// Whether some dimension is unknown (written -1): such a tensor has to be
    /// resized before it can be used.
    pub fn is_dynamic_unsized(&self) -> (b: bool)
        ensures
            b == self@.contains(-1i32),
    {
        proof {
            use_type_invariant(self);
        }
        let mut i: usize = 0;
        while i < self.size
            invariant
                self.size <= 4,
                i <= self.size,
                forall|j: int| 0 <= j < i ==> self@[j] != -1i32,
            decreases self.size - i,
        {
            if self.shape[i] == -1 {
                assert(self@[i as int] == -1i32);
                return true;
            }
            i = i + 1;
        }
        false
    }
}

impl View for TensorShape {
    type V = Seq<i32>;

    closed spec fn view(&self) -> Seq<i32> {
        self.shape@.take(self.size as int)
    }
}

/// A value that gives the shape of a tensor.
pub trait AsTensorShape {
    /// The dimensions that the value lists.
    spec fn spec_dims(&self) -> Seq<i32>;

    /// The shape: the first four dimensions of the value.
    fn as_tensor_shape(&self) -> (s: TensorShape)
        ensures
            s@ == self.spec_dims().take(spec_shape_size(self.spec_dims()) as int),
    ;
}

impl AsTensorShape for Vec<i32> {
    open spec fn spec_dims(&self) -> Seq<i32> {
        self@
    }

    fn as_tensor_shape(&self) -> (s: TensorShape)
        ensures
            s.spec_slots() == spec_shape_slots(self@),
    {
        TensorShape::from_dims(self.as_slice())
    }
}

impl<const N: usize> AsTensorShape for [i32; N] {
    open spec fn spec_dims(&self) -> Seq<i32> {
        self@
    }

    fn as_tensor_shape(&self) -> (s: TensorShape)
        ensures
            s.spec_slots() == spec_shape_slots(self@),
    {
        TensorShape::from_dims(self.as_slice())
    }
}

impl<'a> AsTensorShape for &'a [i32] {
    open spec fn spec_dims(&self) -> Seq<i32> {
        (*self)@
    }

    fn as_tensor_shape(&self) -> (s: TensorShape)
        ensures
            s.spec_slots() == spec_shape_slots((*self)@),
    {
        TensorShape::from_dims(*self)
    }
}

impl AsTensorShape for TensorShape {
    open spec fn spec_dims(&self) -> Seq<i32> {
        self@
    }

    fn as_tensor_shape(&self) -> (s: TensorShape)
        ensures
            s == *self,
    {
        proof {
            use_type_invariant(self);
        }
        *self
    }
}

/// The checks that a tensor of a session passes before it is handed out with the
/// element type `H`: the tensor exists (`tensor` is its native handle, zero when the
/// engine found none), no dimension is unknown, and the element type is `H`.
pub open spec fn spec_tensor_check<H: HalideType>(
    tensor: usize,
    shape: TensorShape,
    actual: HalideTypeT,
    missing: ErrorKind,
) -> Option<ErrorKind> {
    if tensor == 0 {
        Some(missing)
    } else if shape@.contains(-1i32) {
        Some(ErrorKind::DynamicTensorError)
    } else if actual != H::spec_halide_type() {
        Some(ErrorKind::HalideTypeMismatch { got: H::spec_element_name() })
    } else {
        None
    }
}

/// Checks a tensor of a session before handing it out with the element type `H`.
///
/// `tensor` is the native handle of the tensor (zero when the engine found none),
/// `shape` and `actual` its shape and element type as the engine reports them, and
/// `missing` the error for a tensor that was not found.
pub fn check_tensor<H: HalideType>(
    tensor: usize,
    shape: &TensorShape,
    actual: HalideTypeT,
    missing: ErrorKind,
) -> (r: Result<usize>)
    ensures
        spec_tensor_check::<H>(tensor, *shape, actual, missing) matches Some(k) ==> fails_with(
            r,
            k,
        ),
        spec_tensor_check::<H>(tensor, *shape, actual, missing) is None ==> r == Ok::<
            usize,
            MNNError,
        >(tensor),
{
    if tensor == 0 {
        return Err(MNNError::new(missing));
    }
    if shape.is_dynamic_unsized() {
        return Err(MNNError::new(ErrorKind::DynamicTensorError));
    }
    let expected = H::halide_type_of();
    if !actual.same_as(&expected) {
        return Err(MNNError::new(ErrorKind::HalideTypeMismatch { got: H::element_name() }));
    }
    Ok(tensor)
}

/// Checks a tensor of a session whose shape is not looked at: it exists and its
/// element type is `H`.
pub fn check_tensor_unresized<H: HalideType>(
    tensor: usize,
    actual: HalideTypeT,
    missing: ErrorKind,
) -> (r: Result<usize>)
    ensures
        tensor == 0 ==> fails_with(r, missing),
        tensor != 0 && actual != H::spec_halide_type() ==> fails_with(
            r,
            ErrorKind::HalideTypeMismatch { got: H::spec_element_name() },
        ),
        tensor != 0 && actual == H::spec_halide_type() ==> r == Ok::<usize, MNNError>(tensor),
{
    if tensor == 0 {
        return Err(MNNError::new(missing));
    }
    let expected = H::halide_type_of();
    if !actual.same_as(&expected) {
        return Err(MNNError::new(ErrorKind::HalideTypeMismatch { got: H::element_name() }));
    }
    Ok(tensor)
}

/// The result of copying between a tensor and a host tensor, from what the engine
/// returned: it returns zero when the copy failed.
pub fn check_copy(ret: i32) -> (r: Result<()>)
    ensures
        ret != 0 ==> r is Ok,
        ret == 0 ==> fails_with(r, ErrorKind::TensorCopyFailed(ret)),
{
    if ret != 0 {
        Ok(())
    } else {
        Err(MNNError::new(ErrorKind::TensorCopyFailed(ret)))
    }
}

/// The layout that a new owned tensor of kind `T` is created with: a device tensor
/// takes the layout asked for, a host tensor is always created in the Caffe layout.
pub fn creation_dimension_type<T: OwnedTensorType>(dm_type: DimensionType) -> (d: DimensionType)
    ensures
        !T::spec_host() ==> d == dm_type,
        T::spec_host() ==> d == DimensionType::Caffe,
{
    if T::device() {
        dm_type
    } else {
        DimensionType::Caffe
    }
}

/// A tensor with no guarantee of kind or element type, held by its native handle.
#[derive(Debug, Clone, Copy, PartialEq, Eq)]
pub struct RawTensor {
    inner: usize,
}

impl RawTensor {
    /// Native handle of the tensor.
    pub closed spec fn spec_handle(&self) -> usize {
        self.inner
    }

    /// A raw tensor from its native handle.
    pub fn from_ptr(inner: usize) -> (t: RawTensor)
        ensures
            t.spec_handle() == inner,
    {
        RawTensor { inner }
    }

    /// Native handle of the tensor.
    pub fn handle(&self) -> (h: usize)
        ensures
            h == self.spec_handle(),
    {
        self.inner
    }

    /// Whether the tensor, whose shape the engine reports as `shape`, is unsized and
    /// dynamic: it has to be resized before it can be used.
    pub fn is_dynamic_unsized(&self, shape: &TensorShape) -> (b: bool)
        ensures
            b == shape@.contains(-1i32),
    {
        shape.is_dynamic_unsized()
    }
}

/// The kind of a tensor, known from its type: owned or borrowed, on the host or on
/// a device, and its element type.
pub trait TensorType: Sealed {
    /// The element type.
    type H: HalideType;

    /// Whether the tensor owns its storage.
    spec fn spec_owned() -> bool;

    /// Whether the tensor lives on the host.
    spec fn spec_host() -> bool;

    /// Whether the tensor owns its storage.
    fn owned() -> (b: bool)
        ensures
            b == Self::spec_owned(),
    ;

    /// Whether the tensor borrows its storage.
    fn borrowed() -> (b: bool)
        ensures
            b == !Self::spec_owned(),
    {
        !Self::owned()
    }

    /// Whether the tensor lives on the host.
    fn host() -> (b: bool)
        ensures
            b == Self::spec_host(),
    ;

    /// Whether the tensor lives on a device.
    fn device() -> (b: bool)
        ensures
            b == !Self::spec_host(),
    {
        !Self::host()
    }
}

/// A tensor kind that owns its storage.
pub trait OwnedTensorType: TensorType {}

/// A tensor kind that borrows its storage.
pub trait RefTensorType: TensorType {}

/// A tensor kind that lives on the host.
pub trait HostTensorType: TensorType {}

/// A tensor kind that lives on a device.
pub trait DeviceTensorType: TensorType {}

/// An owned tensor on the host, with elements of type `T`.
pub struct Host<T> {
    pub(crate) marker: PhantomData<T>,
}

/// An owned tensor on a device, with elements of type `T`.
pub struct Device<T> {
    pub(crate) marker: PhantomData<T>,
}

/// A borrowed tensor of the kind `T`.
pub struct Ref<'t, T> {
    pub(crate) marker: PhantomData<(&'t (), T)>,
}

impl<T> Sealed for Host<T> {}

impl<T> Sealed for Device<T> {}

impl<'t, T> Sealed for Ref<'t, T> {}

impl<H: HalideType> TensorType for Host<H> {
    type H = H;

    open spec fn spec_owned() -> bool {
        true
    }

    open spec fn spec_host() -> bool {
        true
    }

    fn owned() -> (b: bool) {
        true
    }

    fn host() -> (b: bool) {
        true
    }
}

impl<H: HalideType> OwnedTensorType for Host<H> {}

impl<H: HalideType> HostTensorType for Host<H> {}

impl<H: HalideType> TensorType for Device<H> {
    type H = H;

    open spec fn spec_owned() -> bool {
        true
    }

    open spec fn spec_host() -> bool {
        false
    }

    fn owned() -> (b: bool) {
        true
    }

    fn host() -> (b: bool) {
        false
    }
}

impl<H: HalideType> OwnedTensorType for Device<H> {}

impl<H: HalideType> DeviceTensorType for Device<H> {}

impl<'t, T: TensorType> TensorType for Ref<'t, T> {
    type H = T::H;

    open spec fn spec_owned() -> bool {
        false
    }

    open spec fn spec_host() -> bool {
        T::spec_host()
    }

    fn owned() -> (b: bool) {
        false
    }

    fn host() -> (b: bool) {
        T::host()
    }
}

impl<'t, T: TensorType> RefTensorType for Ref<'t, T> {}

impl<'t, T: HostTensorType> HostTensorType for Ref<'t, T> {}

impl<'t, T: DeviceTensorType> DeviceTensorType for Ref<'t, T> {}

/// A borrowed tensor never owns its storage and lives where the tensor it borrows
/// lives; an owned host tensor is on the host and an owned device tensor is not.
pub proof fn lemma_tensor_kinds<T: TensorType, H: HalideType>()
    ensures
        !Ref::<'static, T>::spec_owned(),
        Ref::<'static, T>::spec_host() == T::spec_host(),
        Host::<H>::spec_owned() && Host::<H>::spec_host(),
        Device::<H>::spec_owned() && !Device::<H>::spec_host(),
{
}

/// The shape made from a list of dimensions keeps the first four of them, and one
/// fills the slots after the last one; the shape of a shape is the shape itself.
pub proof fn lemma_shape_from_dims(dims: Seq<i32>, s: TensorShape)
    ensures
        spec_shape_size(dims) <= 4,
        dims.len() <= 4 ==> dims.take(spec_shape_size(dims) as int) == dims,
        dims.len() > 4 ==> dims.take(spec_shape_size(dims) as int) == dims.subrange(0, 4),
        forall|i: int| 0 <= i < 4 && i >= dims.len() ==> #[trigger] spec_shape_slots(dims)[i] == 1,
        s@.len() <= 4 ==> s@.take(spec_shape_size(s@) as int) == s@,
{
    assert(dims.len() <= 4 ==> dims.take(spec_shape_size(dims) as int) =~= dims);
    assert(dims.len() > 4 ==> dims.take(spec_shape_size(dims) as int) =~= dims.subrange(0, 4));
    assert(s@.len() <= 4 ==> s@.take(spec_shape_size(s@) as int) =~= s@);
}

/// Each layout is handed to the engine as the dimension type of the same name:
/// TensorFlow (NHWC) 0, Caffe (NCHW) 1, Caffe with channels packed by four 2; no two
/// layouts share a code.
pub proof fn lemma_dimension_codes_match_engine(a: DimensionType, b: DimensionType)
    ensures
        DimensionType::TensorFlow.spec_code() == 0 && DimensionType::Caffe.spec_code() == 1
            && DimensionType::CaffeC4.spec_code() == 2,
        a.spec_code() == b.spec_code() ==> a == b,
{
}

} // verus!
