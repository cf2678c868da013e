//! The camera: a bounded pan-and-zoom controller.
//!
//! Six directions move the eye along the axes of the camera's own frame. A
//! move is taken only if the eye it would lead to lies inside the interval
//! that bounds the axis moved along; a move that is not taken changes nothing.

use crate::game_state::GameState;
use crate::space::{Axis, Orientation, Vec3, AXIS_UNIT, UNIT};
use crate::world::World;
use vstd::prelude::*;

verus! {

/// Ties the camera to a phase of the game.
#[derive(Copy, Clone, PartialEq, Eq, Structural, Debug)]
pub struct CameraPlugin {
    pub desired_state: Option<GameState>,
}

impl CameraPlugin {
    /// A camera that lives in every phase.
    pub fn new() -> (plugin: Self)
        ensures
            plugin.desired_state is None,
    {
        Self { desired_state: None }
    }

    /// A camera that lives while the game is in `state`.
    pub fn run_in_state(state: GameState) -> (plugin: Self)
        ensures
            plugin.desired_state == Some(state),
    {
        Self { desired_state: Some(state) }
    }
}

impl Default for CameraPlugin {
    fn default() -> (plugin: Self)
        ensures
            plugin.desired_state is None,
    {
        Self { desired_state: None }
    }
}

/// How fast the camera moves and how far it may go.
///
/// `speed` is in world units per second. Each pair is a closed interval, in
/// ticks, for the eye's coordinate along one axis of the camera's frame:
/// `bounds_x` along its left, `bounds_z` along its up, `bounds_y` along its
/// back.
#[derive(Copy, Clone, PartialEq, Eq, Debug)]
pub struct Camera {
    pub speed: u32,
    pub bounds_x: (i64, i64),
    pub bounds_y: (i64, i64),
    pub bounds_z: (i64, i64),
}

impl Camera {
    /// A slow camera that may go anywhere.
    pub open spec fn spec_default() -> Camera {
        Camera {
            speed: 25,
            bounds_x: (i64::MIN, i64::MAX),
            bounds_y: (i64::MIN, i64::MAX),
            bounds_z: (i64::MIN, i64::MAX),
        }
    }
}

impl Default for Camera {
    fn default() -> (camera: Self)
        ensures
            camera == Camera::spec_default(),
    {
        Self {
            speed: 25,
            bounds_x: (i64::MIN, i64::MAX),
            bounds_y: (i64::MIN, i64::MAX),
            bounds_z: (i64::MIN, i64::MAX),
        }
    }
}

/// Where the camera is and what it looks at.
#[derive(Copy, Clone, PartialEq, Eq, Structural, Debug)]
pub struct LookTransform {
    pub eye: Vec3,
    pub target: Vec3,
}

/// Everything that makes up the camera: its pose, the frame it is drawn with
/// and its limits.
#[derive(Copy, Clone, PartialEq, Eq, Debug)]
pub struct CameraBundle {
    pub look_transform: LookTransform,
    pub transform: Orientation,
    pub camera: Camera,
}

/// A key of the keyboard that the camera listens to.
#[derive(Copy, Clone, PartialEq, Eq, Structural, Debug)]
pub enum KeyCode {
    W,
    S,
    A,
    D,
    Q,
    E,
}

/// A direction in which the camera can be asked to move.
#[derive(Copy, Clone, PartialEq, Eq, Structural, Hash, Debug)]
pub enum CameraAction {
    MoveUp,
    MoveDown,
    MoveLeft,
    MoveRight,
    ZoomIn,
    ZoomOut,
}

/// Which directions are held down during a frame.
#[derive(Copy, Clone, PartialEq, Eq, Structural, Debug)]
pub struct ActionState {
    pub move_up: bool,
    pub move_down: bool,
    pub move_left: bool,
    pub move_right: bool,
    pub zoom_in: bool,
    pub zoom_out: bool,
}

impl ActionState {
    pub open spec fn spec_pressed(&self, action: CameraAction) -> bool {
        match action {
            CameraAction::MoveUp => self.move_up,
            CameraAction::MoveDown => self.move_down,
            CameraAction::MoveLeft => self.move_left,
            CameraAction::MoveRight => self.move_right,
            CameraAction::ZoomIn => self.zoom_in,
            CameraAction::ZoomOut => self.zoom_out,
        }
    }

    /// Whether `action` is held down.
    #[verifier::when_used_as_spec(spec_pressed)]
    pub fn pressed(&self, action: CameraAction) -> (held: bool)
        ensures
            held == self.spec_pressed(action),
    {
        match action {
            CameraAction::MoveUp => self.move_up,
            CameraAction::MoveDown => self.move_down,
            CameraAction::MoveLeft => self.move_left,
            CameraAction::MoveRight => self.move_right,
            CameraAction::ZoomIn => self.zoom_in,
            CameraAction::ZoomOut => self.zoom_out,
        }
    }

    /// Holds `action` down and leaves the others as they are.
    pub fn press(&mut self, action: CameraAction)
        ensures
            final(self).pressed(action),
            forall|other: CameraAction|
                other != action ==> final(self).pressed(other) == old(self).pressed(other),
    {
        match action {
            CameraAction::MoveUp => self.move_up = true,
            CameraAction::MoveDown => self.move_down = true,
            CameraAction::MoveLeft => self.move_left = true,
            CameraAction::MoveRight => self.move_right = true,
            CameraAction::ZoomIn => self.zoom_in = true,
            CameraAction::ZoomOut => self.zoom_out = true,
        }
    }
}

impl Default for ActionState {
    fn default() -> (state: Self)
        ensures
            forall|action: CameraAction| !state.pressed(action),
    {
        Self {
            move_up: false,
            move_down: false,
            move_left: false,
            move_right: false,
            zoom_in: false,
            zoom_out: false,
        }
    }
}

impl CameraBundle {
    /// The keys that the six directions are bound to.
    pub fn default_input_map() -> (input_map: Vec<(CameraAction, KeyCode)>)
        ensures
            input_map@ == seq![
                (CameraAction::MoveUp, KeyCode::W),
                (CameraAction::MoveDown, KeyCode::S),
                (CameraAction::MoveLeft, KeyCode::A),
                (CameraAction::MoveRight, KeyCode::D),
                (CameraAction::ZoomIn, KeyCode::Q),
                (CameraAction::ZoomOut, KeyCode::E),
            ],
    {
        let mut input_map: Vec<(CameraAction, KeyCode)> = Vec::new();
        input_map.push((CameraAction::MoveUp, KeyCode::W));
        input_map.push((CameraAction::MoveDown, KeyCode::S));
        input_map.push((CameraAction::MoveLeft, KeyCode::A));
        input_map.push((CameraAction::MoveRight, KeyCode::D));
        input_map.push((CameraAction::ZoomIn, KeyCode::Q));
        input_map.push((CameraAction::ZoomOut, KeyCode::E));
        input_map
    }

    /// The frame of a camera that looks at the origin from the place where a
    /// game starts with it, the world's y pointing up: its right, its up and
    /// its back are whole multiples of (1, 0, 1), (3, 2, -3) and (-1, 3, 1),
    /// which are at right angles, each about a thousand long.
    pub open spec fn spec_initial_frame() -> Orientation {
        Orientation {
            x_axis: Axis { x: 707, y: 0, z: 707 },
            y_axis: Axis { x: 639, y: 426, z: -639i32 },
            z_axis: Axis { x: -302i32, y: 906, z: 302 },
        }
    }

    /// The camera that a game starts with: its eye at (-50, 150, 50), looking
    /// at the origin.
    pub open spec fn spec_initial() -> CameraBundle {
        CameraBundle {
            look_transform: LookTransform {
                eye: Vec3 { x: -50_000_000i64, y: 150_000_000, z: 50_000_000 },
                target: Vec3 { x: 0, y: 0, z: 0 },
            },
            transform: CameraBundle::spec_initial_frame(),
            camera: Camera {
                speed: 250,
                bounds_x: (-50_000_000i64, 50_000_000),
                bounds_y: (100_000_000, 300_000_000),
                bounds_z: (-50_000_000i64, 50_000_000),
            },
        }
    }

    /// Whether the eye lies inside all three bound intervals, each measured
    /// along its own axis of the camera's frame.
    pub open spec fn eye_in_bounds(self) -> bool {
        &&& CameraAction::MoveLeft.spec_check_in_bounds(
            &self.transform,
            self.look_transform.eye,
            &self.camera,
        )
        &&& CameraAction::MoveUp.spec_check_in_bounds(
            &self.transform,
            self.look_transform.eye,
            &self.camera,
        )
        &&& CameraAction::ZoomOut.spec_check_in_bounds(
            &self.transform,
            self.look_transform.eye,
            &self.camera,
        )
    }
}

/// Whether every component of `axis` is at most 2^31 in size.
pub open spec fn short_axis(axis: Vec3) -> bool {
    &&& -0x8000_0000 <= axis.x <= 0x8000_0000
    &&& -0x8000_0000 <= axis.y <= 0x8000_0000
    &&& -0x8000_0000 <= axis.z <= 0x8000_0000
}

/// The scalar product of a position and a direction.
fn project(pos: &Vec3, axis: &Vec3) -> (p: i128)
    requires
        short_axis(*axis),
    ensures
        p == pos.dot(*axis),
{
    let px: i128 = mul_short(pos.x, axis.x);
    let py: i128 = mul_short(pos.y, axis.y);
    let pz: i128 = mul_short(pos.z, axis.z);
    px + py + pz
}

/// The product of a coordinate and a component of a direction.
fn mul_short(a: i64, b: i64) -> (p: i128)
    requires
        -0x8000_0000 <= b <= 0x8000_0000,
    ensures
        p == a * b,
        -0x4000_0000_0000_0000_0000_0000 <= p <= 0x4000_0000_0000_0000_0000_0000,
{
    assert(-0x4000_0000_0000_0000_0000_0000 <= a * b <= 0x4000_0000_0000_0000_0000_0000)
        by (nonlinear_arith)
        requires
            -0x8000_0000_0000_0000 <= a <= 0x8000_0000_0000_0000,
            -0x8000_0000 <= b <= 0x8000_0000,
    ;
    (a as i128) * (b as i128)
}

impl CameraAction {
    /// The six directions, in the order in which a frame applies them.
    pub const DIRECTIONS: [CameraAction; 6] = [
        CameraAction::MoveUp,
        CameraAction::MoveDown,
        CameraAction::MoveLeft,
        CameraAction::MoveRight,
        CameraAction::ZoomIn,
        CameraAction::ZoomOut,
    ];

    /// Whether the direction moves the eye alone, towards or away from what
    /// it looks at.
    pub open spec fn spec_is_zoom(&self) -> bool {
        *self == CameraAction::ZoomIn || *self == CameraAction::ZoomOut
    }

    #[verifier::when_used_as_spec(spec_is_zoom)]
    pub fn is_zoom(&self) -> (zoom: bool)
        ensures
            zoom == self.spec_is_zoom(),
    {
        match self {
            CameraAction::ZoomIn => true,
            CameraAction::ZoomOut => true,
            _ => false,
        }
    }

    pub open spec fn spec_scene_direction(self, scene_transform: &Orientation) -> Vec3 {
        match self {
            CameraAction::MoveUp => scene_transform.up(),
            CameraAction::MoveDown => scene_transform.down(),
            CameraAction::MoveLeft => scene_transform.left(),
            CameraAction::MoveRight => scene_transform.right(),
            CameraAction::ZoomIn => scene_transform.forward(),
            CameraAction::ZoomOut => scene_transform.back(),
        }
    }

    /// The way this direction points in the world, for a camera drawn with
    /// `scene_transform`.
    #[verifier::when_used_as_spec(spec_scene_direction)]
    pub fn scene_direction(self, scene_transform: &Orientation) -> (direction: Vec3)
        ensures
            direction == self.spec_scene_direction(scene_transform),
            short_axis(direction),
    {
        match self {
            CameraAction::MoveUp => scene_transform.up(),
            CameraAction::MoveDown => scene_transform.down(),
            CameraAction::MoveLeft => scene_transform.left(),
            CameraAction::MoveRight => scene_transform.right(),
            CameraAction::ZoomIn => scene_transform.forward(),
            CameraAction::ZoomOut => scene_transform.back(),
        }
    }

    /// The axis along which this direction's bounds are measured: the
    /// camera's up for `MoveUp` and `MoveDown`, its left for `MoveLeft` and
    /// `MoveRight`, its back for `ZoomIn` and `ZoomOut`.
    pub open spec fn bound_axis(self, scene_transform: &Orientation) -> Vec3 {
        match self {
            CameraAction::MoveUp | CameraAction::MoveDown => scene_transform.up(),
            CameraAction::MoveLeft | CameraAction::MoveRight => scene_transform.left(),
            CameraAction::ZoomIn | CameraAction::ZoomOut => scene_transform.back(),
        }
    }

    /// Which of the three bounded axes this direction moves along: 0 for the
    /// camera's left and right, 1 for its up and down, 2 for its back and
    /// forward.
    pub open spec fn axis_index(self) -> int {
        match self {
            CameraAction::MoveLeft | CameraAction::MoveRight => 0,
            CameraAction::MoveUp | CameraAction::MoveDown => 1,
            CameraAction::ZoomIn | CameraAction::ZoomOut => 2,
        }
    }

    /// The interval that bounds the eye along [`CameraAction::bound_axis`].
    pub open spec fn bounds(self, camera: &Camera) -> (i64, i64) {
        match self {
            CameraAction::MoveUp | CameraAction::MoveDown => camera.bounds_z,
            CameraAction::MoveLeft | CameraAction::MoveRight => camera.bounds_x,
            CameraAction::ZoomIn | CameraAction::ZoomOut => camera.bounds_y,
        }
    }

    pub open spec fn spec_check_in_bounds(
        self,
        scene_transform: &Orientation,
        pos: Vec3,
        camera: &Camera,
    ) -> bool {
        let coordinate = pos.dot(self.bound_axis(scene_transform));
        let (low, high) = self.bounds(camera);
        low * AXIS_UNIT <= coordinate <= high * AXIS_UNIT
    }

    /// Whether an eye at `pos` lies inside the closed interval that bounds
    /// the axis this direction moves along.
    #[verifier::when_used_as_spec(spec_check_in_bounds)]
    pub fn check_in_bounds(self, scene_transform: &Orientation, pos: Vec3, camera: &Camera) -> (inside:
        bool)
        ensures
            inside == self.spec_check_in_bounds(scene_transform, pos, camera),
    {
        let (axis, bounds): (Vec3, (i64, i64)) = match self {
            CameraAction::MoveUp | CameraAction::MoveDown => (scene_transform.up(), camera.bounds_z),
            CameraAction::MoveLeft | CameraAction::MoveRight => (
                scene_transform.left(),
                camera.bounds_x,
            ),
            CameraAction::ZoomIn | CameraAction::ZoomOut => (scene_transform.back(), camera.bounds_y),
        };
        let coordinate: i128 = project(&pos, &axis);
        let low: i128 = mul_short(bounds.0, AXIS_UNIT);
        let high: i128 = mul_short(bounds.1, AXIS_UNIT);
        low <= coordinate && coordinate <= high
    }

    /// The camera after one request to move `step` thousandths of a unit in
    /// this direction. The move is taken if the eye it leads to can be
    /// represented and lies in bounds and, for a pan, the target can follow;
    /// otherwise the camera stays as it is.
    pub open spec fn spec_apply(self, bundle: CameraBundle, step: int) -> CameraBundle {
        let direction = self.spec_scene_direction(&bundle.transform);
        let eye = bundle.look_transform.eye;
        let target = bundle.look_transform.target;
        if eye.can_shift(direction, step) && self.spec_check_in_bounds(
            &bundle.transform,
            eye.shifted(direction, step),
            &bundle.camera,
        ) && (self.is_zoom() || target.can_shift(direction, step)) {
            CameraBundle {
                look_transform: LookTransform {
                    eye: eye.shifted(direction, step),
                    target: if self.is_zoom() {
                        target
                    } else {
                        target.shifted(direction, step)
                    },
                },
                ..bundle
            }
        } else {
            bundle
        }
    }

    /// Moves the camera `step` thousandths of a unit in this direction if the
    /// move stays in bounds.
    pub fn apply(self, bundle: &mut CameraBundle, step: u64)
        ensures
            *final(bundle) == self.spec_apply(*old(bundle), step as int),
    {
        let direction: Vec3 = self.scene_direction(&bundle.transform);
        match bundle.look_transform.eye.checked_shift(&direction, step) {
            Some(new_position) => {
                if self.check_in_bounds(&bundle.transform, new_position, &bundle.camera) {
                    if self.is_zoom() {
                        bundle.look_transform.eye = new_position;
                    } else {
                        match bundle.look_transform.target.checked_shift(&direction, step) {
                            Some(new_target) => {
                                bundle.look_transform.eye = new_position;
                                bundle.look_transform.target = new_target;
                            },
                            None => {},
                        }
                    }
                }
            },
            None => {},
        }
    }
}

/// Puts the camera into the world where a game starts with it: its eye at
/// (-50, 150, 50), looking at the origin, with a speed of 250 units a second
/// and bounds of fifty units to either side along its left and its up and of
/// a hundred to three hundred units along its back. Its frame is the one it
/// looks at the origin with; since panning and zooming never turn the camera,
/// the frame stays true. A camera that was there is replaced.
pub fn setup(world: &mut World)
    ensures
        *final(world) == (World { camera: Some(CameraBundle::spec_initial()), ..*old(world) }),
{
    let scale: i64 = 10 * UNIT;
    world.camera = Some(
        CameraBundle {
            look_transform: LookTransform {
                eye: Vec3::new(-5 * scale, 15 * scale, 5 * scale),
                target: Vec3::new(0 * scale, 0 * scale, 0 * scale),
            },
            transform: Orientation {
                x_axis: Axis { x: 707, y: 0, z: 707 },
                y_axis: Axis { x: 639, y: 426, z: -639 },
                z_axis: Axis { x: -302, y: 906, z: 302 },
            },
            camera: Camera {
                speed: 250,
                bounds_x: (-5 * scale, 5 * scale),
                bounds_y: (10 * scale, 30 * scale),
                bounds_z: (-5 * scale, 5 * scale),
            },
        },
    );
}

/// Takes the camera out of the world.
pub fn destroy(world: &mut World)
    ensures
        *final(world) == (World { camera: None, ..*old(world) }),
{
    world.camera = None;
}

/// The distance, in thousandths of a unit, that a camera of the given speed
/// covers in `delta_ms` milliseconds.
pub open spec fn spec_step(speed: u32, delta_ms: u32) -> int {
    speed * delta_ms
}

/// The camera after the first `done` of the six directions have had their
/// turn in a frame: each one that is held down is applied to what the ones
/// before it left.
pub open spec fn spec_after_directions(
    bundle: CameraBundle,
    delta_ms: u32,
    actions: ActionState,
    done: nat,
) -> CameraBundle
    decreases done,
{
    if done == 0 || done > 6 {
        bundle
    } else {
        let before = spec_after_directions(bundle, delta_ms, actions, (done - 1) as nat);
        let direction = CameraAction::DIRECTIONS[done - 1];
        if actions.pressed(direction) {
            direction.spec_apply(before, spec_step(bundle.camera.speed, delta_ms))
        } else {
            before
        }
    }
}

/// The camera after one frame of `delta_ms` milliseconds with `actions` held
/// down.
pub open spec fn spec_camera_controller(
    bundle: CameraBundle,
    delta_ms: u32,
    actions: ActionState,
) -> CameraBundle {
    spec_after_directions(bundle, delta_ms, actions, 6)
}

/// Moves the camera, if there is one, for a frame that lasted `delta_ms`
/// milliseconds. The six directions are taken in the order of
/// [`CameraAction::DIRECTIONS`]; each one that is held down moves the eye by
/// speed times time along its own direction, provided the eye stays inside the
/// bounds of that axis. Zooming moves the eye alone; the other four move eye
/// and target together.
pub fn camera_controller(delta_ms: u32, camera: &mut Option<CameraBundle>, actions: &ActionState)
    ensures
        *final(camera) == match *old(camera) {
            Some(bundle) => Some(spec_camera_controller(bundle, delta_ms, *actions)),
            None => None,
        },
{
    let mut bundle: CameraBundle = match *camera {
        Some(bundle) => bundle,
        None => {
            return ;
        },
    };
    let ghost start = bundle;
    assert(bundle.camera.speed * delta_ms <= 0xFFFF_FFFF * 0xFFFF_FFFF) by (nonlinear_arith)
        requires
            0 <= bundle.camera.speed <= 0xFFFF_FFFF,
            0 <= delta_ms <= 0xFFFF_FFFF,
    ;
    let step: u64 = (bundle.camera.speed as u64) * (delta_ms as u64);
    let mut i: usize = 0;
    while i < 6
        invariant
            i <= 6,
            step == spec_step(start.camera.speed, delta_ms),
            bundle == spec_after_directions(start, delta_ms, *actions, i as nat),
        decreases 6 - i,
    {
        let direction: CameraAction = CameraAction::DIRECTIONS[i];
        if actions.pressed(direction) {
            direction.apply(&mut bundle, step);
        }
        i = i + 1;
    }
    *camera = Some(bundle);
}

/// The camera after a run of frames, each with its own length and its own
/// keys held down, the first frame first.
pub open spec fn spec_after_frames(
    bundle: CameraBundle,
    frames: Seq<(u32, ActionState)>,
) -> CameraBundle
    decreases frames.len(),
{
    if frames.len() == 0 {
        bundle
    } else {
        spec_camera_controller(
            spec_after_frames(bundle, frames.drop_last()),
            frames.last().0,
            frames.last().1,
        )
    }
}

/// Scalar products of the directions of two axes are, up to sign, the scalar
/// product of the axes.
proof fn lemma_axis_products(p: Axis, q: Axis)
    ensures
        p.spec_vec().dot(q.spec_vec()) == p.dot(q),
        p.spec_neg_vec().dot(q.spec_vec()) == -p.dot(q),
        p.spec_vec().dot(q.spec_neg_vec()) == -p.dot(q),
        p.spec_neg_vec().dot(q.spec_neg_vec()) == p.dot(q),
        p.dot(q) == q.dot(p),
{
    assert((-p.x) * q.x + (-p.y) * q.y + (-p.z) * q.z == -(p.x * q.x + p.y * q.y + p.z * q.z))
        by (nonlinear_arith);
    assert(p.x * (-q.x) + p.y * (-q.y) + p.z * (-q.z) == -(p.x * q.x + p.y * q.y + p.z * q.z))
        by (nonlinear_arith);
    assert((-p.x) * (-q.x) + (-p.y) * (-q.y) + (-p.z) * (-q.z) == p.x * q.x + p.y * q.y + p.z
        * q.z) by (nonlinear_arith);
    assert(p.x * q.x + p.y * q.y + p.z * q.z == q.x * p.x + q.y * p.y + q.z * p.z)
        by (nonlinear_arith);
}

proof fn lemma_shifted_product(e: int, d: int, step: int, a: int)
    ensures
        (e + d * step) * a == e * a + step * (d * a),
{
    assert((e + d * step) * a == e * a + step * (d * a)) by (nonlinear_arith);
}

/// Moving along `dir` changes the coordinate along `axis` by the step times
/// the scalar product of the two.
proof fn lemma_shifted_coordinate(eye: Vec3, dir: Vec3, step: int, axis: Vec3)
    requires
        eye.can_shift(dir, step),
    ensures
        eye.shifted(dir, step).dot(axis) == eye.dot(axis) + step * dir.dot(axis),
{
    lemma_shifted_product(eye.x as int, dir.x as int, step, axis.x as int);
    lemma_shifted_product(eye.y as int, dir.y as int, step, axis.y as int);
    lemma_shifted_product(eye.z as int, dir.z as int, step, axis.z as int);
    let dx = dir.x * axis.x;
    let dy = dir.y * axis.y;
    let dz = dir.z * axis.z;
    assert(step * (dx + dy + dz) == step * dx + step * dy + step * dz) by (nonlinear_arith);
}

/// In a frame whose axes are at right angles, a direction is at right angles
/// to the axes that bound the other directions.
proof fn lemma_cross_axes(moved: CameraAction, other: CameraAction, scene_transform: Orientation)
    requires
        scene_transform.orthogonal(),
        moved.axis_index() != other.axis_index(),
    ensures
        moved.spec_scene_direction(&scene_transform).dot(other.bound_axis(&scene_transform)) == 0,
{
    lemma_axis_products(scene_transform.x_axis, scene_transform.y_axis);
    lemma_axis_products(scene_transform.y_axis, scene_transform.x_axis);
    lemma_axis_products(scene_transform.y_axis, scene_transform.z_axis);
    lemma_axis_products(scene_transform.z_axis, scene_transform.y_axis);
    lemma_axis_products(scene_transform.z_axis, scene_transform.x_axis);
    lemma_axis_products(scene_transform.x_axis, scene_transform.z_axis);
}

/// In any frame, whatever its axes, a request to move either changes nothing
/// or leaves the eye inside the bounds of the axis moved along.
pub proof fn lemma_apply_checks_its_axis(action: CameraAction, bundle: CameraBundle, step: int)
    ensures
        action.spec_apply(bundle, step) == bundle || action.spec_check_in_bounds(
            &bundle.transform,
            action.spec_apply(bundle, step).look_transform.eye,
            &bundle.camera,
        ),
        action.spec_apply(bundle, step).transform == bundle.transform,
        action.spec_apply(bundle, step).camera == bundle.camera,
        action.is_zoom() ==> action.spec_apply(bundle, step).look_transform.target
            == bundle.look_transform.target,
{
}

/// A single request to move never takes the eye out of bounds, as long as
/// the axes of the camera's frame are at right angles: a move that is taken
/// was checked along its own axis and leaves the two other coordinates as
/// they were. The frame and the limits are never changed.
pub proof fn lemma_apply_keeps_eye_in_bounds(action: CameraAction, bundle: CameraBundle, step: int)
    requires
        bundle.transform.orthogonal(),
        bundle.eye_in_bounds(),
    ensures
        action.spec_apply(bundle, step).eye_in_bounds(),
        action.spec_apply(bundle, step).transform == bundle.transform,
        action.spec_apply(bundle, step).camera == bundle.camera,
{
    let after = action.spec_apply(bundle, step);
    if after != bundle {
        let direction = action.spec_scene_direction(&bundle.transform);
        let eye = bundle.look_transform.eye;
        assert(after.look_transform.eye == eye.shifted(direction, step));
        assert forall|other: CameraAction|
            other.axis_index() != action.axis_index() implies #[trigger] other.spec_check_in_bounds(
            &bundle.transform,
            after.look_transform.eye,
            &bundle.camera,
        ) == other.spec_check_in_bounds(&bundle.transform, eye, &bundle.camera) by {
            let axis = other.bound_axis(&bundle.transform);
            lemma_shifted_coordinate(eye, direction, step, axis);
            lemma_cross_axes(action, other, bundle.transform);
            assert(step * direction.dot(axis) == 0) by (nonlinear_arith)
                requires
                    direction.dot(axis) == 0,
            ;
        }
    }
}

/// A frame never takes the eye out of bounds, whatever its length and
/// whichever keys are held down, as long as the axes of the camera's frame are
/// at right angles.
pub proof fn lemma_frame_keeps_eye_in_bounds(
    bundle: CameraBundle,
    delta_ms: u32,
    actions: ActionState,
)
    requires
        bundle.transform.orthogonal(),
        bundle.eye_in_bounds(),
    ensures
        spec_camera_controller(bundle, delta_ms, actions).eye_in_bounds(),
        spec_camera_controller(bundle, delta_ms, actions).transform == bundle.transform,
        spec_camera_controller(bundle, delta_ms, actions).camera == bundle.camera,
{
    lemma_directions_keep_eye_in_bounds(bundle, delta_ms, actions, 6);
}

proof fn lemma_directions_keep_eye_in_bounds(
    bundle: CameraBundle,
    delta_ms: u32,
    actions: ActionState,
    done: nat,
)
    requires
        bundle.transform.orthogonal(),
        bundle.eye_in_bounds(),
    ensures
        spec_after_directions(bundle, delta_ms, actions, done).eye_in_bounds(),
        spec_after_directions(bundle, delta_ms, actions, done).transform == bundle.transform,
        spec_after_directions(bundle, delta_ms, actions, done).camera == bundle.camera,
    decreases done,
{
    if done != 0 && done <= 6 {
        lemma_directions_keep_eye_in_bounds(bundle, delta_ms, actions, (done - 1) as nat);
        let before = spec_after_directions(bundle, delta_ms, actions, (done - 1) as nat);
        lemma_apply_keeps_eye_in_bounds(
            CameraAction::DIRECTIONS[done - 1],
            before,
            spec_step(bundle.camera.speed, delta_ms),
        );
    }
}

/// However many frames pass, however long each lasts and whichever keys are
/// held down in it, an eye that starts inside its three bound intervals stays
/// inside them, as long as the axes of the camera's frame are at right angles.
pub proof fn lemma_eye_stays_in_bounds(bundle: CameraBundle, frames: Seq<(u32, ActionState)>)
    requires
        bundle.transform.orthogonal(),
        bundle.eye_in_bounds(),
    ensures
        spec_after_frames(bundle, frames).eye_in_bounds(),
        spec_after_frames(bundle, frames).transform == bundle.transform,
        spec_after_frames(bundle, frames).camera == bundle.camera,
    decreases frames.len(),
{
    if frames.len() != 0 {
        lemma_eye_stays_in_bounds(bundle, frames.drop_last());
        lemma_frame_keeps_eye_in_bounds(
            spec_after_frames(bundle, frames.drop_last()),
            frames.last().0,
            frames.last().1,
        );
    }
}

/// The camera that a game starts with never leaves its bounds, however many
/// frames pass, however long each lasts and whichever keys are held down.
pub proof fn lemma_initial_camera_stays_in_bounds(frames: Seq<(u32, ActionState)>)
    ensures
        spec_after_frames(CameraBundle::spec_initial(), frames).eye_in_bounds(),
{
    lemma_eye_stays_in_bounds(CameraBundle::spec_initial(), frames);
}

} // verus!
