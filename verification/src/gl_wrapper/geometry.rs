use crate::gl_wrapper::command::{push_command, Command, CommandView};
use crate::gl_wrapper::value::{Scalar, MINUS_ONE, ONE, ZERO};
use vstd::prelude::*;

verus! {

/// Bytes taken by one single-precision component.
pub const COMPONENT_BYTES: u32 = 4;

/// Largest number the context accepts for a count or a size in bytes.
pub const SIZE_LIMIT: u32 = 0x7FFF_FFFF;

/// How consecutive vertices are assembled into triangles.
#[derive(Debug, Clone, Copy, PartialEq, Eq, Structural)]
pub enum GeometryType {
    Triangles,
    TriangleFan,
    TriangleStrip,
}

impl GeometryType {
    /// The context's numeric code of the primitive mode.
    pub open spec fn code(self) -> u32 {
        match self {
            GeometryType::Triangles => 0x0004,
            GeometryType::TriangleStrip => 0x0005,
            GeometryType::TriangleFan => 0x0006,
        }
    }
}

impl From<GeometryType> for u32 {
    fn from(gt: GeometryType) -> (code: u32) {
        match gt {
            GeometryType::Triangles => 0x0004,
            GeometryType::TriangleStrip => 0x0005,
            GeometryType::TriangleFan => 0x0006,
        }
    }
}

impl vstd::std_specs::convert::FromSpecImpl<GeometryType> for u32 {
    open spec fn obeys_from_spec() -> bool {
        true
    }

    open spec fn from_spec(gt: GeometryType) -> u32 {
        gt.code()
    }
}

/// Width of one vertex attribute, in single-precision components.
#[derive(Debug, Clone, Copy, PartialEq, Eq, Structural)]
pub enum AttrSize {
    Float,
    Vec2,
    Vec3,
    Vec4,
}

impl AttrSize {
    /// Number of components of the attribute.
    pub open spec fn spec_components(self) -> nat {
        match self {
            AttrSize::Float => 1,
            AttrSize::Vec2 => 2,
            AttrSize::Vec3 => 3,
            AttrSize::Vec4 => 4,
        }
    }

    /// Number of components of the attribute.
    pub fn components(self) -> (n: u32)
        ensures
            n == self.spec_components(),
    {
        match self {
            AttrSize::Float => 1,
            AttrSize::Vec2 => 2,
            AttrSize::Vec3 => 3,
            AttrSize::Vec4 => 4,
        }
    }
}

/// Components of one vertex: the sum of the widths of its attributes.
pub open spec fn vertex_width(attributes: Seq<AttrSize>) -> nat
    decreases attributes.len(),
{
    if attributes.len() == 0 {
        0
    } else {
        vertex_width(attributes.drop_last()) + attributes.last().spec_components()
    }
}

/// One more attribute widens the vertex by its components.
pub proof fn lemma_vertex_width_push(attributes: Seq<AttrSize>, attribute: AttrSize)
    ensures
        vertex_width(Seq::<AttrSize>::empty()) == 0,
        vertex_width(attributes.push(attribute)) == vertex_width(attributes)
            + attribute.spec_components(),
{
    assert(attributes.push(attribute).drop_last() =~= attributes);
}

/// Every attribute has at least one component and at most four.
pub proof fn lemma_vertex_width_bounds(attributes: Seq<AttrSize>)
    ensures
        attributes.len() <= vertex_width(attributes) <= 4 * attributes.len(),
    decreases attributes.len(),
{
    if attributes.len() > 0 {
        lemma_vertex_width_bounds(attributes.drop_last());
    }
}

/// The attributes in front of a position take no more room than the whole
/// vertex.
pub proof fn lemma_vertex_width_prefix(attributes: Seq<AttrSize>, n: int)
    requires
        0 <= n <= attributes.len(),
    ensures
        vertex_width(attributes.take(n)) <= vertex_width(attributes),
        n < attributes.len() ==> vertex_width(attributes.take(n + 1)) == vertex_width(
            attributes.take(n),
        ) + attributes[n].spec_components(),
    decreases attributes.len() - n,
{
    if n < attributes.len() {
        assert(attributes.take(n + 1).drop_last() =~= attributes.take(n));
        lemma_vertex_width_prefix(attributes, n + 1);
    } else {
        assert(attributes.take(n) =~= attributes);
    }
}

/// Why vertex data cannot be turned into a geometry.
#[derive(Debug, Clone, Copy, PartialEq, Eq, Structural)]
pub enum GeometryError {
    /// No attribute was declared, so a vertex has no width.
    NoAttributes,
    /// The data does not divide into whole vertices.
    Misaligned,
    /// The stride in bytes or the number of vertices is beyond [`SIZE_LIMIT`].
    TooLarge,
}

/// A vertex buffer on the GPU together with the way it is drawn.
#[derive(Debug, PartialEq, Eq)]
pub struct Geometry {
    mode: GeometryType,
    count: u32,
    vao: u32,
    vbo: u32,
}

/// What a [`Geometry`] holds.
pub struct GeometryView {
    /// Primitive mode of the draw call.
    pub mode: GeometryType,
    /// Number of vertices drawn.
    pub count: u32,
    /// Name of the vertex array object.
    pub vao: u32,
    /// Name of the vertex buffer object.
    pub vbo: u32,
}

impl View for Geometry {
    type V = GeometryView;

    closed spec fn view(&self) -> GeometryView {
        GeometryView { mode: self.mode, count: self.count, vao: self.vao, vbo: self.vbo }
    }
}

/// The calls that draw a geometry: one draw call over all of its vertices.
pub open spec fn draw_commands(geometry: GeometryView) -> Seq<CommandView> {
    seq![
        CommandView::BindVertexArray { id: geometry.vao },
        CommandView::DrawArrays { mode: geometry.mode, count: geometry.count },
    ]
}

impl Geometry {
    /// Primitive mode of the draw call.
    pub fn mode(&self) -> (mode: GeometryType)
        ensures
            mode == self@.mode,
    {
        self.mode
    }

    /// Number of vertices drawn.
    pub fn count(&self) -> (count: u32)
        ensures
            count == self@.count,
    {
        self.count
    }

    /// Name of the vertex array object.
    pub fn vao(&self) -> (vao: u32)
        ensures
            vao == self@.vao,
    {
        self.vao
    }

    /// Name of the vertex buffer object.
    pub fn vbo(&self) -> (vbo: u32)
        ensures
            vbo == self@.vbo,
    {
        self.vbo
    }

    /// Gives the geometry up: the calls that delete its vertex array and its
    /// vertex buffer.
    pub fn release(self) -> (commands: Vec<Command>)
        ensures
            commands.deep_view() == seq![
                CommandView::DeleteVertexArray { id: self@.vao },
                CommandView::DeleteBuffer { id: self@.vbo },
            ],
    {
        let mut commands: Vec<Command> = Vec::new();
        push_command(&mut commands, Command::DeleteVertexArray { id: self.vao });
        push_command(&mut commands, Command::DeleteBuffer { id: self.vbo });
        commands
    }

    /// The calls that draw the whole geometry.
    pub fn draw(&self) -> (commands: Vec<Command>)
        ensures
            commands.deep_view() == draw_commands(self@),
    {
        let mut commands: Vec<Command> = Vec::new();
        push_command(&mut commands, Command::BindVertexArray { id: self.vao });
        push_command(&mut commands, Command::DrawArrays { mode: self.mode, count: self.count });
        commands
    }
}

/// Collects vertex data and its layout before it is handed to the GPU.
#[derive(Debug, Clone, PartialEq, Eq)]
pub struct GeometryBuilder {
    data: Vec<Scalar>,
    attributes: Vec<AttrSize>,
    mode: GeometryType,
}

/// What a [`GeometryBuilder`] holds.
pub struct GeometryBuilderView {
    /// The components of all vertices, one after the other.
    pub data: Seq<Scalar>,
    /// The attributes of one vertex, in their order.
    pub attributes: Seq<AttrSize>,
    /// Primitive mode of the draw call.
    pub mode: GeometryType,
}

impl View for GeometryBuilder {
    type V = GeometryBuilderView;

    closed spec fn view(&self) -> GeometryBuilderView {
        GeometryBuilderView { data: self.data@, attributes: self.attributes@, mode: self.mode }
    }
}

/// Why the data of a builder cannot be built, if anything stands against it.
pub open spec fn build_error(builder: GeometryBuilderView) -> Option<GeometryError> {
    let width = vertex_width(builder.attributes);
    if width == 0 {
        Some(GeometryError::NoAttributes)
    } else if width * COMPONENT_BYTES > SIZE_LIMIT {
        Some(GeometryError::TooLarge)
    } else if builder.data.len() % width != 0 {
        Some(GeometryError::Misaligned)
    } else if builder.data.len() / width > SIZE_LIMIT {
        Some(GeometryError::TooLarge)
    } else {
        None
    }
}

/// The call that describes attribute `index` of a vertex with these
/// attributes.
pub open spec fn attribute_command(attributes: Seq<AttrSize>, index: int) -> CommandView {
    CommandView::VertexAttribute {
        index: index as u32,
        components: attributes[index],
        stride: (vertex_width(attributes) * COMPONENT_BYTES) as u32,
        offset: (vertex_width(attributes.take(index)) * COMPONENT_BYTES) as u32,
    }
}

/// The calls that fill a vertex buffer and describe its layout.
pub open spec fn upload_commands(vao: u32, vbo: u32, builder: GeometryBuilderView) -> Seq<
    CommandView,
> {
    seq![
        CommandView::BindVertexArray { id: vao },
        CommandView::BindBuffer { id: vbo },
        CommandView::BufferData { data: builder.data },
    ] + Seq::new(
        builder.attributes.len(),
        |index: int| attribute_command(builder.attributes, index),
    ) + seq![CommandView::BindBuffer { id: 0 }, CommandView::BindVertexArray { id: 0 }]
}

/// Data that can be built divides into whole vertices: the number of vertices
/// times the width of a vertex is the length of the data, and nothing is cut
/// off.
pub proof fn lemma_vertices_cover_data(builder: GeometryBuilderView)
    requires
        build_error(builder) is None,
    ensures
        vertex_width(builder.attributes) > 0,
        (builder.data.len() / vertex_width(builder.attributes)) * vertex_width(builder.attributes)
            == builder.data.len(),
{
    let width = vertex_width(builder.attributes);
    let len = builder.data.len();
    assert((len / width) * width == len) by (nonlinear_arith)
        requires
            width > 0,
            len % width == 0,
    ;
}

/// The attributes tile the vertex: the first starts at its beginning, each
/// further one starts where the one before it ends, and the last one ends
/// where the next vertex begins.
pub proof fn lemma_attributes_tile_vertex(attributes: Seq<AttrSize>, index: int)
    requires
        0 <= index < attributes.len(),
    ensures
        vertex_width(attributes.take(0)) == 0,
        vertex_width(attributes.take(index + 1)) == vertex_width(attributes.take(index))
            + attributes[index].spec_components(),
        vertex_width(attributes.take(attributes.len() as int)) == vertex_width(attributes),
{
    lemma_vertex_width_prefix(attributes, index);
    assert(attributes.take(attributes.len() as int) =~= attributes);
}

impl GeometryBuilder {
    /// Starts from the components of all vertices, with no attribute declared
    /// and a list of separate triangles as the primitive mode.
    pub fn new(geometry_data: Vec<Scalar>) -> (builder: Self)
        ensures
            builder@ == (GeometryBuilderView {
                data: geometry_data@,
                attributes: Seq::empty(),
                mode: GeometryType::Triangles,
            }),
    {
        Self { data: geometry_data, attributes: Vec::new(), mode: GeometryType::Triangles }
    }

    /// Sets the primitive mode.
    pub fn mode(self, mode: GeometryType) -> (builder: Self)
        ensures
            builder@ == (GeometryBuilderView { mode, ..self@ }),
    {
        let mut builder = self;
        builder.mode = mode;
        builder
    }

    /// Declares further attributes, behind those already declared.
    pub fn with_attributes(self, attributes: &[AttrSize]) -> (builder: Self)
        ensures
            builder@ == (GeometryBuilderView {
                attributes: self@.attributes + attributes@,
                ..self@
            }),
    {
        let mut builder = self;
        let mut i: usize = 0;
        while i < attributes.len()
            invariant
                i <= attributes@.len(),
                builder.data == self.data,
                builder.mode == self.mode,
                builder.attributes@ == self.attributes@ + attributes@.take(i as int),
            decreases attributes@.len() - i,
        {
            builder.attributes.push(attributes[i]);
            i += 1;
        }
        assert(attributes@.take(i as int) =~= attributes@);
        builder
    }

    /// Components of one vertex, or `None` where the stride in bytes would be
    /// beyond [`SIZE_LIMIT`].
    fn width(&self) -> (width: Option<u32>)
        ensures
            match width {
                Some(w) => w == vertex_width(self@.attributes) && w * COMPONENT_BYTES
                    <= SIZE_LIMIT,
                None => vertex_width(self@.attributes) * COMPONENT_BYTES > SIZE_LIMIT,
            },
    {
        let mut total: u32 = 0;
        let mut i: usize = 0;
        while i < self.attributes.len()
            invariant
                i <= self.attributes@.len(),
                total == vertex_width(self.attributes@.take(i as int)),
                total * COMPONENT_BYTES <= SIZE_LIMIT,
            decreases self.attributes@.len() - i,
        {
            proof {
                lemma_vertex_width_prefix(self.attributes@, i as int);
            }
            total = total + self.attributes[i].components();
            i += 1;
            if total > SIZE_LIMIT / COMPONENT_BYTES {
                proof {
                    lemma_vertex_width_prefix(self.attributes@, i as int);
                }
                return None;
            }
        }
        assert(self.attributes@.take(i as int) =~= self.attributes@);
        Some(total)
    }

    /// Turns the data into a geometry that lives in the vertex array `vao`
    /// and the vertex buffer `vbo`, both fresh from the context, and gives
    /// the calls that put it there.
    ///
    /// The number of vertices is the length of the data divided by the width
    /// of a vertex. Data that does not divide evenly is refused.
    pub fn build(self, vao: u32, vbo: u32) -> (built: Result<(Geometry, Vec<Command>), GeometryError>)
        ensures
            match built {
                Ok((geometry, commands)) => {
                    &&& build_error(self@) is None
                    &&& geometry@ == (GeometryView {
                        mode: self@.mode,
                        count: (self@.data.len() / vertex_width(self@.attributes)) as u32,
                        vao,
                        vbo,
                    })
                    &&& commands.deep_view() == upload_commands(vao, vbo, self@)
                },
                Err(error) => build_error(self@) == Some(error),
            },
    {
        let width: u32 = match self.width() {
            Some(width) => width,
            None => {
                proof {
                    lemma_vertex_width_bounds(self@.attributes);
                }
                return Err(GeometryError::TooLarge);
            },
        };
        if width == 0 {
            return Err(GeometryError::NoAttributes);
        }
        let len: usize = self.data.len();
        if len % (width as usize) != 0 {
            return Err(GeometryError::Misaligned);
        }
        let vertices: usize = len / (width as usize);
        if vertices > SIZE_LIMIT as usize {
            return Err(GeometryError::TooLarge);
        }
        let GeometryBuilder { data, attributes, mode } = self;
        let mut commands: Vec<Command> = Vec::new();
        push_command(&mut commands, Command::BindVertexArray { id: vao });
        push_command(&mut commands, Command::BindBuffer { id: vbo });
        push_command(&mut commands, Command::BufferData { data });
        let ghost head = commands.deep_view();
        let stride: u32 = width * COMPONENT_BYTES;
        let mut offset: u32 = 0;
        let mut i: usize = 0;
        proof {
            lemma_vertex_width_bounds(attributes@);
        }
        while i < attributes.len()
            invariant
                i <= attributes@.len(),
                attributes@.len() <= width,
                width == vertex_width(attributes@),
                width * COMPONENT_BYTES <= SIZE_LIMIT,
                stride == width * COMPONENT_BYTES,
                offset == vertex_width(attributes@.take(i as int)) * COMPONENT_BYTES,
                commands.deep_view() == head + Seq::new(
                    i as nat,
                    |index: int| attribute_command(attributes@, index),
                ),
            decreases attributes@.len() - i,
        {
            proof {
                lemma_vertex_width_prefix(attributes@, i as int);
                lemma_vertex_width_prefix(attributes@, i + 1);
            }
            push_command(
                &mut commands,
                Command::VertexAttribute {
                    index: i as u32,
                    components: attributes[i],
                    stride,
                    offset,
                },
            );
            offset = offset + attributes[i].components() * COMPONENT_BYTES;
            i += 1;
        }
        push_command(&mut commands, Command::BindBuffer { id: 0 });
        push_command(&mut commands, Command::BindVertexArray { id: 0 });
        Ok((Geometry { mode, count: vertices as u32, vao, vbo }, commands))
    }
}

/// The components of a quad that covers the whole target: four vertices, each
/// a position in device space followed by a texture coordinate.
pub open spec fn quad_data() -> Seq<Scalar> {
    seq![
        Scalar::Bits(MINUS_ONE),
        Scalar::Bits(MINUS_ONE),
        Scalar::Bits(ZERO),
        Scalar::Bits(ZERO),
        Scalar::Bits(MINUS_ONE),
        Scalar::Bits(ONE),
        Scalar::Bits(ZERO),
        Scalar::Bits(ONE),
        Scalar::Bits(ONE),
        Scalar::Bits(MINUS_ONE),
        Scalar::Bits(ONE),
        Scalar::Bits(ZERO),
        Scalar::Bits(ONE),
        Scalar::Bits(ONE),
        Scalar::Bits(ONE),
        Scalar::Bits(ONE),
    ]
}

/// What the builder of the quad holds.
pub open spec fn quad_builder() -> GeometryBuilderView {
    GeometryBuilderView {
        data: quad_data(),
        attributes: seq![AttrSize::Vec2, AttrSize::Vec2],
        mode: GeometryType::TriangleStrip,
    }
}

/// Two positions and two texture coordinates make a vertex four wide.
pub proof fn lemma_quad_width()
    ensures
        vertex_width(quad_builder().attributes) == 4,
        build_error(quad_builder()) is None,
{
    let one = Seq::<AttrSize>::empty().push(AttrSize::Vec2);
    lemma_vertex_width_push(Seq::empty(), AttrSize::Vec2);
    lemma_vertex_width_push(one, AttrSize::Vec2);
    assert(quad_builder().attributes =~= one.push(AttrSize::Vec2));
}

/// A quad that covers the whole target, drawn as a strip of two triangles,
/// in the vertex array `vao` and the vertex buffer `vbo`, both fresh from the
/// context, with the calls that put it there.
pub fn quad(vao: u32, vbo: u32) -> (built: (Geometry, Vec<Command>))
    ensures
        built.0@ == (GeometryView { mode: GeometryType::TriangleStrip, count: 4, vao, vbo }),
        built.1.deep_view() == upload_commands(vao, vbo, quad_builder()),
{
    let minus = Scalar::Bits(MINUS_ONE);
    let zero = Scalar::Bits(ZERO);
    let one = Scalar::Bits(ONE);
    let data: Vec<Scalar> = vec![
        minus,
        minus,
        zero,
        zero,
        minus,
        one,
        zero,
        one,
        one,
        minus,
        one,
        zero,
        one,
        one,
        one,
        one,
    ];
    let attributes: [AttrSize; 2] = [AttrSize::Vec2, AttrSize::Vec2];
    let builder = GeometryBuilder::new(data).mode(GeometryType::TriangleStrip).with_attributes(
        attributes.as_slice(),
    );
    proof {
        lemma_quad_width();
    }
    builder.build(vao, vbo).unwrap()
}

} // verus!
