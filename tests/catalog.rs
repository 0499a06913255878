use onnxruntime::vision::{
    ImageClassificationModel, InceptionVersion, ResNet, ResNetV1, ResNetV2, Vgg, Vision,
};

#[test]
fn squeezenet_url() {
    let m = Vision::ImageClassification(ImageClassificationModel::SqueezeNet);
    assert_eq!(
        m.fetch_url(),
        "https://github.com/onnx/models/raw/master/vision/classification/squeezenet/model/squeezenet1.0-9.onnx"
    );
}

#[test]
fn nested_model_urls() {
    assert_eq!(
        ImageClassificationModel::ResNet(ResNet::V2(ResNetV2::ResNet50)).fetch_url(),
        "https://github.com/onnx/models/raw/master/vision/classification/resnet/model/resnet50-v2-7.onnx"
    );
    assert_eq!(
        ResNet::V1(ResNetV1::ResNet152).fetch_url(),
        "https://github.com/onnx/models/raw/master/vision/classification/resnet/model/resnet152-v1-7.onnx"
    );
    assert_eq!(
        ImageClassificationModel::Inception(InceptionVersion::V2).fetch_url(),
        "https://github.com/onnx/models/raw/master/vision/classification/inception_and_googlenet/inception_v2/model/inception-v2-9.onnx"
    );
    assert_eq!(
        ImageClassificationModel::Vgg(Vgg::Vgg19Bn).fetch_url(),
        "https://github.com/onnx/models/raw/master/vision/classification/vgg/model/vgg19-bn-7.onnx"
    );
    assert_eq!(
        ImageClassificationModel::Mnist.fetch_url(),
        "https://github.com/onnx/models/raw/master/vision/classification/mnist/model/mnist-8.onnx"
    );
}
