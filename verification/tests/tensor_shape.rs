use mnn::tensor::TensorShape;
use mnn::{AsTensorShape, DimensionType};

#[test]
fn as_tensor_shape_test_vec() {
    println!("Testing Vec<i32> with small shape");
    vec![1, 2, 3].as_tensor_shape();
    println!("Testing Vec<i32> with large shape");
    vec![12, 23, 34, 45, 67].as_tensor_shape();
}

#[test]
fn as_tensor_shape_test_array() {
    println!("Testing [i32; 3] with small shape");
    [1, 2, 3].as_tensor_shape();
    println!("Testing [i32; 5] with large shape");
    [12, 23, 34, 45, 67].as_tensor_shape();
}

#[test]
fn as_tensor_shape_test_ref() {
    println!("Testing &[i32] with small shape");
    (&[1, 2, 3][..]).as_tensor_shape();
    println!("Testing &[i32] with large shape");
    (&[12, 23, 34, 45, 67][..]).as_tensor_shape();
}

#[test]
fn test_dimension_type_constants() {
    assert_eq!(DimensionType::NHWC, DimensionType::TensorFlow);
    assert_eq!(DimensionType::NCHW, DimensionType::Caffe);
    assert_eq!(DimensionType::NC4HW4, DimensionType::CaffeC4);
}

#[test]
fn test_tensor_shape_conversions() {
    let vec_shape = vec![1, 2, 3, 4];
    let tensor_shape = vec_shape.as_tensor_shape();
    assert_eq!(tensor_shape.as_ref(), &[1, 2, 3, 4]);

    let array_shape = [1, 2, 3];
    let tensor_shape = array_shape.as_tensor_shape();
    assert_eq!(tensor_shape.as_ref(), &[1, 2, 3]);

    let ref_shape = &vec![5, 6, 7];
    let tensor_shape = ref_shape.as_tensor_shape();
    assert_eq!(tensor_shape.as_ref(), &[5, 6, 7]);
}

#[test]
fn large_shape_keeps_first_four_dimensions() {
    let s = vec![12, 23, 34, 45, 67].as_tensor_shape();
    assert_eq!(s.as_ref(), &[12, 23, 34, 45]);
    assert_eq!(s.len(), 4);
    assert!(!s.is_empty());
}

#[test]
fn empty_shape_has_no_dimension() {
    let s = Vec::<i32>::new().as_tensor_shape();
    assert!(s.is_empty());
    assert_eq!(s.len(), 0);
    let empty: &[i32] = s.as_ref();
    assert!(empty.is_empty());
}

#[test]
fn shape_of_a_shape_is_itself() {
    let s = [2, 3, 4].as_tensor_shape();
    let t = s.as_tensor_shape();
    assert_eq!(t.as_ref(), s.as_ref());
}

#[test]
fn shape_get_and_set() {
    let mut s = TensorShape::from_dims(&[1, 3, 224, 224]);
    assert_eq!(s.get(2), 224);
    s.set(0, 42);
    assert_eq!(s.get(0), 42);
    assert_eq!(s.as_ref(), &[42, 3, 224, 224]);
}

#[test]
fn dynamic_dimension_is_detected() {
    assert!(TensorShape::from_dims(&[1, -1, 3]).is_dynamic_unsized());
    assert!(!TensorShape::from_dims(&[1, 2, 3]).is_dynamic_unsized());
    // a -1 past the fourth dimension is not kept
    assert!(!TensorShape::from_dims(&[1, 2, 3, 4, -1]).is_dynamic_unsized());
}

#[test]
fn dimension_type_native_codes() {
    assert_eq!(DimensionType::TensorFlow.to_mnn_sys(), 0);
    assert_eq!(DimensionType::Caffe.to_mnn_sys(), 1);
    assert_eq!(DimensionType::CaffeC4.to_mnn_sys(), 2);
    for d in [DimensionType::Caffe, DimensionType::CaffeC4, DimensionType::TensorFlow] {
        assert_eq!(DimensionType::from_mnn_sys(d.to_mnn_sys()), d);
    }
}
