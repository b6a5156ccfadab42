use vstd::prelude::*;

pub mod camera;
pub mod common;
pub mod consts;
pub mod events;
pub mod fixed;
pub mod scene_object;
pub mod trig;
pub mod types;

pub use camera::Camera;
pub use camera::ClippingPlanes;
pub use common::normalize;
pub use scene_object::SceneObject;
pub use scene_object::Transform;
pub use types::Color;
pub use types::DegenerateVectorError;
pub use types::Matrix4;
pub use types::Normal;
pub use types::Scalar;
pub use types::UnitVector3;
pub use types::Vector3;
pub use types::Vertex;
pub use types::DrawCall;
pub use types::DrawConfig;

verus! {

/// `m` is the model matrix of `o`: a pure uniform-scale matrix.
pub open spec fn model_matrix_of(m: types::Matrix4, o: SceneObject) -> bool {
    &&& m@[0]@[0] == o.transform.scale
    &&& m@[1]@[1] == o.transform.scale
    &&& m@[2]@[2] == o.transform.scale
    &&& m@[3]@[3] == fixed::SCALE
    &&& m@[0]@[1] == 0 && m@[0]@[2] == 0 && m@[0]@[3] == 0
    &&& m@[1]@[0] == 0 && m@[1]@[2] == 0 && m@[1]@[3] == 0
    &&& m@[2]@[0] == 0 && m@[2]@[1] == 0 && m@[2]@[3] == 0
    &&& m@[3]@[0] == 0 && m@[3]@[1] == 0 && m@[3]@[2] == 0
}

/// `m` is the perspective matrix of camera `c`.
pub open spec fn perspective_matrix_of(m: types::Matrix4, c: Camera) -> bool {
    &&& m@[0]@[0] == fixed::tdiv(
        trig::persp_f(c.fov as int) * fixed::SCALE,
        c.aspect_ratio as int,
    )
    &&& m@[1]@[1] == trig::persp_f(c.fov as int)
    &&& m@[2]@[2] == fixed::tdiv((consts::FAR + consts::NEAR) * fixed::SCALE,
        consts::FAR - consts::NEAR)
    &&& m@[2]@[3] == fixed::SCALE
    &&& m@[3]@[2] == -fixed::tdiv(2 * consts::FAR * consts::NEAR, consts::FAR - consts::NEAR)
    &&& m@[0]@[1] == 0 && m@[0]@[2] == 0 && m@[0]@[3] == 0
    &&& m@[1]@[0] == 0 && m@[1]@[2] == 0 && m@[1]@[3] == 0
    &&& m@[2]@[0] == 0 && m@[2]@[1] == 0
    &&& m@[3]@[0] == 0 && m@[3]@[1] == 0 && m@[3]@[3] == 0
}

/// `m` is the view matrix of camera `c`.
pub open spec fn view_matrix_of(m: types::Matrix4, c: Camera) -> bool {
    &&& m@[0]@[0] == camera::view_side(c).x
    &&& m@[1]@[0] == camera::view_side(c).y
    &&& m@[2]@[0] == camera::view_side(c).z
    &&& m@[0]@[1] == camera::view_up(c).x
    &&& m@[1]@[1] == camera::view_up(c).y
    &&& m@[2]@[1] == camera::view_up(c).z
    &&& m@[0]@[2] == c.direction.v.x
    &&& m@[1]@[2] == c.direction.v.y
    &&& m@[2]@[2] == c.direction.v.z
    &&& m@[3]@[0] == camera::view_translation(c).0
    &&& m@[3]@[1] == camera::view_translation(c).1
    &&& m@[3]@[2] == camera::view_translation(c).2
    &&& m@[0]@[3] == 0 && m@[1]@[3] == 0 && m@[2]@[3] == 0
    &&& m@[3]@[3] == fixed::SCALE
}

/// `d` is the complete, correct uniform set for drawing object `o` as seen
/// by camera `c`.
pub open spec fn draw_call_of(d: types::DrawCall, o: SceneObject, c: Camera) -> bool {
    &&& d.mesh == o.mesh
    &&& model_matrix_of(d.model, o)
    &&& view_matrix_of(d.view, c)
    &&& perspective_matrix_of(d.perspective, c)
    &&& d.light == consts::light_spec()
}

/// Computes the uniform set for one draw call per object, in the objects'
/// order: the object's model matrix combined with the camera's view and
/// perspective matrices and the fixed light vector.  Fails exactly when
/// the view matrix does not exist (direction parallel to world-up).
pub fn render(objects: &Vec<SceneObject>, camera: &Camera) -> (r: Result<
    Vec<types::DrawCall>,
    DegenerateVectorError,
>)
    requires
        camera::camera_wf(*camera),
    ensures
        match r {
            Ok(calls) => {
                &&& camera::view_ok(*camera)
                &&& calls.len() == objects.len()
                &&& forall|i: int|
                    0 <= i < objects.len() ==> draw_call_of(
                        #[trigger] calls@[i],
                        objects@[i],
                        *camera,
                    )
            },
            Err(_) => !camera::view_ok(*camera),
        },
{
    let view = match camera.get_view_matrix() {
        Ok(m) => m,
        Err(e) => {
            return Err(e);
        },
    };
    let perspective = camera.get_perspective_matrix();
    let lightv = consts::light();
    let mut calls: Vec<types::DrawCall> = Vec::new();
    let mut idx: usize = 0;
    while idx < objects.len()
        invariant
            idx <= objects.len(),
            calls.len() == idx,
            forall|i: int|
                0 <= i < idx ==> draw_call_of(#[trigger] calls@[i], objects@[i], *camera),
            view_matrix_of(view, *camera),
            perspective_matrix_of(perspective, *camera),
            lightv == consts::light_spec(),
        decreases objects.len() - idx,
    {
        let obj = objects[idx];
        let model = obj.get_model_matrix();
        calls.push(types::DrawCall { mesh: obj.mesh, model, view, perspective, light: lightv });
        idx = idx + 1;
    }
    Ok(calls)
}

/// The draw-state configuration every frame is rendered with: depth test
/// "less" with depth writes on, and clockwise faces culled.
pub fn draw_config() -> (c: types::DrawConfig)
    ensures
        c.depth_test is IfLess,
        c.depth_write,
        c.backface_culling is CullClockwise,
{
    types::DrawConfig {
        depth_test: types::DepthTest::IfLess,
        depth_write: true,
        backface_culling: types::BackfaceCulling::CullClockwise,
    }
}

} // verus!
