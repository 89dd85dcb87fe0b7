use vstd::prelude::*;

verus! {

/// One face of a model: its own vertices and the indices that draw them as
/// a triangle list. Indices count from the face's first vertex.
pub struct Face<V> {
    pub vertices: Vec<V>,
    pub indices: Vec<u16>,
}

impl<V> Face<V> {
    /// Every index names a vertex of this face.
    pub open spec fn well_formed(&self) -> bool {
        forall|i: int| 0 <= i < self.indices@.len() ==> (#[trigger] self.indices@[i]) < self.vertices@.len()
    }

    pub fn new(vertices: Vec<V>, indices: Vec<u16>) -> (face: Face<V>)
        ensures
            face.vertices@ == vertices@,
            face.indices@ == indices@,
    {
        Face { vertices, indices }
    }
}

/// The scene that is drawn: whether it is shown, the colour behind it and its
/// faces. `V` is the vertex record and `C` the colour record that the
/// renderer uploads; the library only moves them around.
pub struct Model<V, C> {
    pub visible: bool,
    pub bg_color: C,
    pub faces: Vec<Face<V>>,
}

impl<V, C> Model<V, C> {
    /// A model that starts hidden, with the given background and faces.
    pub fn new(bg_color: C, faces: Vec<Face<V>>) -> (model: Model<V, C>)
        ensures
            !model.visible,
            model.bg_color == bg_color,
            model.faces@ == faces@,
    {
        Model { visible: false, bg_color, faces }
    }
}

/// What a visibility change does to an optional model: with no model nothing
/// changes; otherwise the flag takes the requested value.
pub open spec fn visibility_after<V, C>(model: Option<Model<V, C>>, visible: bool) -> Option<Model<V, C>> {
    match model {
        Some(m) => Some(Model { visible, ..m }),
        None => None,
    }
}

/// A redraw is owed exactly when there is a model and its flag changes.
pub open spec fn redraw_needed<V, C>(model: Option<Model<V, C>>, visible: bool) -> bool {
    match model {
        Some(m) => m.visible != visible,
        None => false,
    }
}

/// Shows or hides the model. Returns whether the window must be redrawn:
/// only when a model exists and its visibility actually changed.
pub fn set_visible<V, C>(model: &mut Option<Model<V, C>>, visible: bool) -> (redraw: bool)
    ensures
        redraw == redraw_needed(*old(model), visible),
        *final(model) == visibility_after(*old(model), visible),
{
    match model.as_mut() {
        Some(state) => {
            if state.visible == visible {
                return false;
            }
            state.visible = visible;
            true
        },
        None => false,
    }
}

/// A second request for the same visibility changes nothing and asks for no
/// redraw.
pub proof fn lemma_set_visible_idempotent<V, C>(model: Option<Model<V, C>>, visible: bool)
    ensures
        visibility_after(visibility_after(model, visible), visible) == visibility_after(model, visible),
        !redraw_needed(visibility_after(model, visible), visible),
{
}

/// Showing and then hiding again (or the reverse) brings back the model as it
/// was, when it started with the flag that is restored.
pub proof fn lemma_set_visible_undo<V, C>(model: Option<Model<V, C>>, visible: bool)
    requires
        model matches Some(m) ==> m.visible == !visible,
    ensures
        visibility_after(visibility_after(model, visible), !visible) == model,
{
}

/// The triangle-list indices that each default face uses: a fan of three
/// triangles over five vertices.
pub open spec fn default_face_indices() -> Seq<u16> {
    seq![0u16, 1, 4, 1, 2, 4, 2, 3, 4]
}

/// The indices of the first default face.
pub fn create_indices1() -> (indices: Vec<u16>)
    ensures
        indices@ == default_face_indices(),
{
    vec![0, 1, 4, 1, 2, 4, 2, 3, 4]
}

/// The indices of the second default face; the same fan as the first.
pub fn create_indices2() -> (indices: Vec<u16>)
    ensures
        indices@ == default_face_indices(),
{
    vec![0, 1, 4, 1, 2, 4, 2, 3, 4]
}

/// The default model's two faces: each given vertex table drawn with the
/// default fan of indices. Both are whole triangles, and each names only
/// vertices of its table exactly when the table has at least five.
pub fn create_faces<V>(vertices1: Vec<V>, vertices2: Vec<V>) -> (faces: Vec<Face<V>>)
    ensures
        faces@.len() == 2,
        faces@[0].vertices@ == vertices1@,
        faces@[0].indices@ == default_face_indices(),
        faces@[1].vertices@ == vertices2@,
        faces@[1].indices@ == default_face_indices(),
        faces@[0].indices@.len() % 3 == 0,
        faces@[1].indices@.len() % 3 == 0,
        faces@[0].well_formed() <==> vertices1@.len() >= 5,
        faces@[1].well_formed() <==> vertices2@.len() >= 5,
{
    let mut faces: Vec<Face<V>> = Vec::new();
    faces.push(Face::new(vertices1, create_indices1()));
    faces.push(Face::new(vertices2, create_indices2()));
    proof { lemma_default_faces_well_formed(faces@); }
    faces
}

/// The default faces are whole triangles, and each is well formed exactly
/// when its vertex table has at least the five vertices the fan names.
pub proof fn lemma_default_faces_well_formed<V>(faces: Seq<Face<V>>)
    requires
        faces.len() == 2,
        faces[0].indices@ == default_face_indices(),
        faces[1].indices@ == default_face_indices(),
    ensures
        forall|f: int| 0 <= f < 2 ==> (#[trigger] faces[f]).indices@.len() % 3 == 0,
        forall|f: int| 0 <= f < 2 ==> ((#[trigger] faces[f]).well_formed() <==> faces[f].vertices@.len() >= 5),
{
    let s = default_face_indices();
    assert(s.len() == 9);
    assert(s[0] == 0 && s[1] == 1 && s[2] == 4 && s[3] == 1 && s[4] == 2);
    assert(s[5] == 4 && s[6] == 2 && s[7] == 3 && s[8] == 4);
    assert forall|f: int| 0 <= f < 2 implies ((#[trigger] faces[f]).well_formed() <==> faces[f].vertices@.len() >= 5) by {
        let face = faces[f];
        if face.vertices@.len() >= 5 {
            assert forall|i: int| 0 <= i < face.indices@.len() implies #[trigger] face.indices@[i] < face.vertices@.len() by {
                assert(face.indices@[i] == s[i]);
            }
        }
        if face.well_formed() {
            assert(face.indices@[2] == 4);
        }
    }
}

} // verus!
