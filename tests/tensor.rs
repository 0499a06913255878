use onnxruntime::element::TensorElementDataType;
use onnxruntime::error::TensorExtractError;
use onnxruntime::tensor::{shape_element_count, DynOrtTensor, TensorLayout};

#[test]
fn extract_declared_type() {
    let t = DynOrtTensor::new(7u8, vec![1, 1000], TensorElementDataType::Float).unwrap();
    assert_eq!(t.element_len(), 1000);
    let typed = t.try_extract(TensorElementDataType::Float).unwrap();
    assert_eq!(typed.shape(), &vec![1, 1000]);
    assert_eq!(typed.len(), 1000);
    assert_eq!(typed.layout(), TensorLayout::View);
    assert_eq!(typed.element_type(), TensorElementDataType::Float);
    assert_eq!(*typed.data(), 7);
}

#[test]
fn extract_wrong_type_is_repeatable() {
    let t = DynOrtTensor::new((), vec![2, 3], TensorElementDataType::Int64).unwrap();
    for _ in 0..2 {
        match t.try_extract(TensorElementDataType::Float) {
            Err(TensorExtractError::DataTypeMismatch { actual, requested }) => {
                assert_eq!(actual, TensorElementDataType::Int64);
                assert_eq!(requested, TensorElementDataType::Float);
            }
            other => panic!("unexpected {:?}", other),
        }
    }
    assert_eq!(t.data_type(), TensorElementDataType::Int64);
    assert_eq!(t.shape(), &vec![2, 3]);
    let typed = t.try_extract(TensorElementDataType::Int64).unwrap();
    assert_eq!(typed.len(), 6);
}

#[test]
fn extract_strings_are_owned() {
    let t = DynOrtTensor::new((), vec![4], TensorElementDataType::String).unwrap();
    let typed = t.try_extract(TensorElementDataType::String).unwrap();
    assert_eq!(typed.layout(), TensorLayout::Owned);
    assert_eq!(typed.len(), 4);
}

#[test]
fn element_counts() {
    assert_eq!(shape_element_count(&vec![]), Some(1));
    assert_eq!(shape_element_count(&vec![1, 3, 224, 224]), Some(150528));
    assert_eq!(shape_element_count(&vec![usize::MAX, 0]), Some(0));
    assert_eq!(shape_element_count(&vec![usize::MAX, 2]), None);
    assert_eq!(shape_element_count(&vec![usize::MAX, 1]), Some(usize::MAX));
    assert!(DynOrtTensor::new((), vec![usize::MAX, 2], TensorElementDataType::Uint8).is_none());
}

#[test]
fn element_type_codes() {
    let all = [
        TensorElementDataType::Float,
        TensorElementDataType::Uint8,
        TensorElementDataType::Int8,
        TensorElementDataType::Uint16,
        TensorElementDataType::Int16,
        TensorElementDataType::Int32,
        TensorElementDataType::Int64,
        TensorElementDataType::String,
        TensorElementDataType::Double,
        TensorElementDataType::Uint32,
        TensorElementDataType::Uint64,
    ];
    for t in all {
        assert_eq!(TensorElementDataType::from_code(t.code()), Some(t));
    }
    assert_eq!(TensorElementDataType::Double.code(), 11);
    assert_eq!(TensorElementDataType::from_code(8), Some(TensorElementDataType::String));
    assert_eq!(TensorElementDataType::from_code(9), None);
    assert!(!TensorElementDataType::String.is_fixed_stride());
    assert!(TensorElementDataType::Int8.is_fixed_stride());
}

#[test]
fn string_elements_from_offsets() {
    let content = b"catdogbird".to_vec();
    let offsets: Vec<usize> = vec![0, 3, 6];
    let elems = onnxruntime::tensor::string_elements(&content, &offsets).unwrap();
    assert_eq!(elems, vec![b"cat".to_vec(), b"dog".to_vec(), b"bird".to_vec()]);
}

#[test]
fn string_elements_empty_and_invalid() {
    let content = b"ab".to_vec();
    assert_eq!(onnxruntime::tensor::string_elements(&content, &vec![]), Some(vec![]));
    assert_eq!(
        onnxruntime::tensor::string_elements(&content, &vec![0, 0, 2]),
        Some(vec![vec![], b"ab".to_vec(), vec![]])
    );
    assert_eq!(onnxruntime::tensor::string_elements(&content, &vec![1, 0]), None);
    assert_eq!(onnxruntime::tensor::string_elements(&content, &vec![3]), None);
}
