//! The scene: a camera and the model instances to draw, in the order in
//! which they were added.

use crate::camera::Camera;
use std::sync::Arc;
use vstd::prelude::*;

verus! {

/// One placement of a mesh. The mesh is shared: many instances may hold the
/// same one. The transform is the instance's own.
pub struct ModelInstance<M, T> {
    pub model: Arc<M>,
    pub transform: T,
}

/// A camera together with the instances that it looks at.
pub struct Scene<M, T> {
    pub camera: Camera,
    pub model_instances: Vec<ModelInstance<M, T>>,
}

impl<M, T> Scene<M, T> {
    /// A scene that owns `camera` and holds no instance yet.
    pub fn new(camera: Camera) -> (scene: Self)
        ensures
            scene.camera == camera,
            scene.model_instances@ == Seq::<ModelInstance<M, T>>::empty(),
    {
        Scene { camera, model_instances: Vec::new() }
    }

    /// Appends an instance behind all that are there. An instance equal to
    /// an earlier one is appended all the same.
    pub fn add_instance(&mut self, model: Arc<M>, transform: T)
        ensures
            final(self).camera == old(self).camera,
            final(self).model_instances@ == old(self).model_instances@.push(
                (ModelInstance { model, transform }),
            ),
    {
        self.model_instances.push(ModelInstance { model, transform });
    }

    /// Gives the instance at `index` a new transform and says whether there
    /// is such an instance. Its mesh, the other instances and the camera
    /// stay as they are.
    pub fn set_transform(&mut self, index: usize, transform: T) -> (found: bool)
        ensures
            final(self).camera == old(self).camera,
            found == (index < old(self).model_instances@.len()),
            found ==> final(self).model_instances@ == old(self).model_instances@.update(
                index as int,
                (ModelInstance { model: old(self).model_instances@[index as int].model, transform }),
            ),
            !found ==> final(self).model_instances@ == old(self).model_instances@,
    {
        if index < self.model_instances.len() {
            self.model_instances[index].transform = transform;
            true
        } else {
            false
        }
    }
}

} // verus!
