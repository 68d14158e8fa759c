use std::sync::Arc;
use viewer_core::camera::{AspectRatio, Camera};
use viewer_core::scene::Scene;

fn camera() -> Camera {
    Camera::new_fps(AspectRatio::new(640, 480).unwrap(), 0, 0).unwrap()
}

#[test]
fn new_scene_owns_the_camera_and_is_empty() {
    let scene: Scene<String, i32> = Scene::new(camera());
    assert_eq!(scene.camera, camera());
    assert!(scene.model_instances.is_empty());
}

#[test]
fn add_instance_appends_in_order() {
    let mesh = Arc::new(String::from("teapot"));
    let mut scene: Scene<String, i32> = Scene::new(camera());
    scene.add_instance(mesh.clone(), 10);
    scene.add_instance(mesh.clone(), 20);
    scene.add_instance(mesh.clone(), 30);
    let transforms: Vec<i32> = scene.model_instances.iter().map(|i| i.transform).collect();
    assert_eq!(transforms, vec![10, 20, 30]);
    assert_eq!(scene.camera, camera());
}

#[test]
fn add_instance_keeps_equal_instances() {
    let mesh = Arc::new(String::from("teapot"));
    let mut scene: Scene<String, i32> = Scene::new(camera());
    scene.add_instance(mesh.clone(), 7);
    scene.add_instance(mesh.clone(), 7);
    assert_eq!(scene.model_instances.len(), 2);
    assert_eq!(scene.model_instances[0].transform, 7);
    assert_eq!(scene.model_instances[1].transform, 7);
}

#[test]
fn instances_share_their_mesh() {
    let mesh = Arc::new(String::from("teapot"));
    let other = Arc::new(String::from("cup"));
    let mut scene: Scene<String, i32> = Scene::new(camera());
    scene.add_instance(mesh.clone(), 1);
    scene.add_instance(other.clone(), 2);
    scene.add_instance(mesh.clone(), 3);
    assert!(Arc::ptr_eq(&scene.model_instances[0].model, &mesh));
    assert!(Arc::ptr_eq(&scene.model_instances[1].model, &other));
    assert!(Arc::ptr_eq(&scene.model_instances[2].model, &mesh));
    assert_eq!(Arc::strong_count(&mesh), 3);
}

#[test]
fn set_transform_replaces_one_transform() {
    let mesh = Arc::new(String::from("teapot"));
    let mut scene: Scene<String, i32> = Scene::new(camera());
    scene.add_instance(mesh.clone(), 1);
    scene.add_instance(mesh.clone(), 2);
    scene.add_instance(mesh.clone(), 3);
    assert!(scene.set_transform(1, 22));
    let transforms: Vec<i32> = scene.model_instances.iter().map(|i| i.transform).collect();
    assert_eq!(transforms, vec![1, 22, 3]);
    assert!(Arc::ptr_eq(&scene.model_instances[1].model, &mesh));
    assert_eq!(scene.camera, camera());
}

#[test]
fn set_transform_reaches_first_and_last() {
    let mesh = Arc::new(String::from("teapot"));
    let mut scene: Scene<String, i32> = Scene::new(camera());
    scene.add_instance(mesh.clone(), 1);
    scene.add_instance(mesh.clone(), 2);
    assert!(scene.set_transform(0, -1));
    assert!(scene.set_transform(1, -2));
    let transforms: Vec<i32> = scene.model_instances.iter().map(|i| i.transform).collect();
    assert_eq!(transforms, vec![-1, -2]);
}

#[test]
fn set_transform_past_the_end_changes_nothing() {
    let mesh = Arc::new(String::from("teapot"));
    let mut scene: Scene<String, i32> = Scene::new(camera());
    assert!(!scene.set_transform(0, 5));
    scene.add_instance(mesh.clone(), 1);
    assert!(!scene.set_transform(1, 5));
    assert!(!scene.set_transform(usize::MAX, 5));
    assert_eq!(scene.model_instances.len(), 1);
    assert_eq!(scene.model_instances[0].transform, 1);
}

#[test]
fn every_transform_can_be_rewritten_each_frame() {
    let mesh = Arc::new(String::from("teapot"));
    let mut scene: Scene<String, u16> = Scene::new(camera());
    for _ in 0..4 {
        scene.add_instance(mesh.clone(), 0);
    }
    for frame in 1..=3u16 {
        for index in 0..scene.model_instances.len() {
            assert!(scene.set_transform(index, frame));
        }
        assert!(scene.model_instances.iter().all(|i| i.transform == frame));
    }
}
