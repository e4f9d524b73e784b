use vstd::prelude::*;
use vstd::string::StringSliceAdditionalSpecFns;

verus! {

/// USB vendor identifier shared by all Brother QL printers.
pub const VENDOR_ID: u16 = 0x04f9;

/// Product identifier a QL printer reports while it is switched into its
/// mass-storage USB mode, in which it cannot print.
pub const MASS_STORAGE_PRODUCT_ID: u16 = 0x2049;

/// First and last ASCII upper-case letter.
pub const ASCII_UPPER_A: u8 = 0x41;

pub const ASCII_UPPER_Z: u8 = 0x5a;

/// The supported printer models.
#[derive(Copy, Clone, Debug, PartialEq, Eq, Structural)]
pub enum Model {
    BrotherQL500,
    BrotherQL550,
    BrotherQL560,
    BrotherQL570,
    BrotherQL580N,
    BrotherQL600,
    BrotherQL650TD,
    BrotherQL700,
    BrotherQL1050,
    BrotherQL1060N,
}

/// What a product identifier under `VENDOR_ID` stands for.
#[derive(Copy, Clone, Debug, PartialEq, Eq, Structural)]
pub enum ProductKind {
    /// A printer of a supported model.
    Printer(Model),
    /// A printer in mass-storage mode: the right device, but unusable until
    /// it is switched back.
    MassStorage,
    /// An identifier this library does not know.
    Unknown,
}

/// A model name that matches no supported model.
#[derive(Copy, Clone, Debug, PartialEq, Eq, Structural)]
pub struct UnknownModel;

/// The USB product identifier of each model.
pub open spec fn product_id_of(m: Model) -> u16 {
    match m {
        Model::BrotherQL500 => 0x2015,
        Model::BrotherQL550 => 0x2016,
        Model::BrotherQL560 => 0x2027,
        Model::BrotherQL570 => 0x2028,
        Model::BrotherQL580N => 0x2029,
        Model::BrotherQL600 => 0x20c0,
        Model::BrotherQL650TD => 0x201b,
        Model::BrotherQL700 => 0x2042,
        Model::BrotherQL1050 => 0x2020,
        Model::BrotherQL1060N => 0x202a,
    }
}

/// The model a product identifier belongs to, if any.
pub open spec fn model_of_product_id(pid: u16) -> Option<Model> {
    if pid == 0x2015 {
        Some(Model::BrotherQL500)
    } else if pid == 0x2016 {
        Some(Model::BrotherQL550)
    } else if pid == 0x2027 {
        Some(Model::BrotherQL560)
    } else if pid == 0x2028 {
        Some(Model::BrotherQL570)
    } else if pid == 0x2029 {
        Some(Model::BrotherQL580N)
    } else if pid == 0x20c0 {
        Some(Model::BrotherQL600)
    } else if pid == 0x201b {
        Some(Model::BrotherQL650TD)
    } else if pid == 0x2042 {
        Some(Model::BrotherQL700)
    } else if pid == 0x2020 {
        Some(Model::BrotherQL1050)
    } else if pid == 0x202a {
        Some(Model::BrotherQL1060N)
    } else {
        None
    }
}

/// The name a model goes by, e.g. `Brother QL-580N`.
pub open spec fn display_name_of(m: Model) -> Seq<char> {
    match m {
        Model::BrotherQL500 => "Brother QL-500"@,
        Model::BrotherQL550 => "Brother QL-550"@,
        Model::BrotherQL560 => "Brother QL-560"@,
        Model::BrotherQL570 => "Brother QL-570"@,
        Model::BrotherQL580N => "Brother QL-580N"@,
        Model::BrotherQL600 => "Brother QL-600"@,
        Model::BrotherQL650TD => "Brother QL-650TD"@,
        Model::BrotherQL700 => "Brother QL-700"@,
        Model::BrotherQL1050 => "Brother QL-1050"@,
        Model::BrotherQL1060N => "Brother QL-1060N"@,
    }
}

/// Wide models carry a longer print head.
pub open spec fn is_wide(m: Model) -> bool {
    m == Model::BrotherQL1050 || m == Model::BrotherQL1060N
}

/// Bytes per raster line: 90 on the standard head, 162 on the wide head.
pub open spec fn line_width_of(m: Model) -> u8 {
    if is_wide(m) {
        162
    } else {
        90
    }
}

/// The model number as printed on the device, in ASCII, e.g. `580N`.
pub open spec fn number_of(m: Model) -> Seq<u8> {
    match m {
        Model::BrotherQL500 => seq![0x35, 0x30, 0x30],
        Model::BrotherQL550 => seq![0x35, 0x35, 0x30],
        Model::BrotherQL560 => seq![0x35, 0x36, 0x30],
        Model::BrotherQL570 => seq![0x35, 0x37, 0x30],
        Model::BrotherQL580N => seq![0x35, 0x38, 0x30, 0x4e],
        Model::BrotherQL600 => seq![0x36, 0x30, 0x30],
        Model::BrotherQL650TD => seq![0x36, 0x35, 0x30, 0x54, 0x44],
        Model::BrotherQL700 => seq![0x37, 0x30, 0x30],
        Model::BrotherQL1050 => seq![0x31, 0x30, 0x35, 0x30],
        Model::BrotherQL1060N => seq![0x31, 0x30, 0x36, 0x30, 0x4e],
    }
}

/// ASCII lower case of one byte.
pub open spec fn lower(c: u8) -> u8 {
    if ASCII_UPPER_A <= c && c <= ASCII_UPPER_Z {
        (c + 32) as u8
    } else {
        c
    }
}

/// `s` starts with `p`, ignoring ASCII case.
pub open spec fn starts_with_ci(s: Seq<u8>, p: Seq<u8>) -> bool {
    p.len() <= s.len() && forall|i: int| 0 <= i < p.len() ==> lower(#[trigger] s[i]) == lower(p[i])
}

/// `a` and `b` are equal, ignoring ASCII case.
pub open spec fn eq_ci(a: Seq<u8>, b: Seq<u8>) -> bool {
    a.len() == b.len() && starts_with_ci(a, b)
}

/// `s` without a leading `p` (ignoring ASCII case), or `s` itself.
pub open spec fn strip_ci(s: Seq<u8>, p: Seq<u8>) -> Seq<u8> {
    if starts_with_ci(s, p) {
        s.subrange(p.len() as int, s.len() as int)
    } else {
        s
    }
}

/// `brother` in ASCII.
pub open spec fn brother_prefix() -> Seq<u8> {
    seq![0x62, 0x72, 0x6f, 0x74, 0x68, 0x65, 0x72]
}

/// `ql` in ASCII.
pub open spec fn ql_prefix() -> Seq<u8> {
    seq![0x71, 0x6c]
}

/// What is left of a model name once the optional `Brother` and `QL`
/// prefixes are taken off, in that order.
pub open spec fn name_suffix(s: Seq<u8>) -> Seq<u8> {
    strip_ci(strip_ci(s, brother_prefix()), ql_prefix())
}

/// Every model, in the order of the enumeration.
pub open spec fn all_models() -> Seq<Model> {
    seq![
        Model::BrotherQL500,
        Model::BrotherQL550,
        Model::BrotherQL560,
        Model::BrotherQL570,
        Model::BrotherQL580N,
        Model::BrotherQL600,
        Model::BrotherQL650TD,
        Model::BrotherQL700,
        Model::BrotherQL1050,
        Model::BrotherQL1060N,
    ]
}

proof fn lemma_all_models_complete(m: Model)
    ensures
        all_models().contains(m),
{
    let a = all_models();
    match m {
        Model::BrotherQL500 => assert(a[0] == m),
        Model::BrotherQL550 => assert(a[1] == m),
        Model::BrotherQL560 => assert(a[2] == m),
        Model::BrotherQL570 => assert(a[3] == m),
        Model::BrotherQL580N => assert(a[4] == m),
        Model::BrotherQL600 => assert(a[5] == m),
        Model::BrotherQL650TD => assert(a[6] == m),
        Model::BrotherQL700 => assert(a[7] == m),
        Model::BrotherQL1050 => assert(a[8] == m),
        Model::BrotherQL1060N => assert(a[9] == m),
    }
}

/// Distinct models have distinct product identifiers.
pub proof fn lemma_product_id_injective(m1: Model, m2: Model)
    ensures
        product_id_of(m1) == product_id_of(m2) ==> m1 == m2,
{
}

/// A product identifier maps back to the model it belongs to.
pub proof fn lemma_product_id_round_trip(m: Model)
    ensures
        model_of_product_id(product_id_of(m)) == Some(m),
{
}

/// A product identifier that belongs to no model in the table never resolves
/// to a model.
pub proof fn lemma_unknown_product_id(pid: u16)
    requires
        forall|m: Model| product_id_of(m) != pid,
    ensures
        model_of_product_id(pid) == None::<Model>,
{
    if let Some(m) = model_of_product_id(pid) {
        assert(product_id_of(m) == pid);
    }
}

impl Model {
    /// The model with USB product identifier `pid`, if any.
    pub fn from_product_id(pid: u16) -> (r: Option<Model>)
        ensures
            r == model_of_product_id(pid),
            r matches Some(m) ==> product_id_of(m) == pid,
            r is None <==> forall|m: Model| product_id_of(m) != pid,
    {
        let r = match pid {
            0x2015 => Some(Model::BrotherQL500),
            0x2016 => Some(Model::BrotherQL550),
            0x2027 => Some(Model::BrotherQL560),
            0x2028 => Some(Model::BrotherQL570),
            0x2029 => Some(Model::BrotherQL580N),
            0x20c0 => Some(Model::BrotherQL600),
            0x201b => Some(Model::BrotherQL650TD),
            0x2042 => Some(Model::BrotherQL700),
            0x2020 => Some(Model::BrotherQL1050),
            0x202a => Some(Model::BrotherQL1060N),
            _ => None,
        };
        r
    }

    /// The USB product identifier of this model.
    pub fn product_id(&self) -> (r: u16)
        ensures
            r == product_id_of(*self),
    {
        match self {
            Model::BrotherQL500 => 0x2015,
            Model::BrotherQL550 => 0x2016,
            Model::BrotherQL560 => 0x2027,
            Model::BrotherQL570 => 0x2028,
            Model::BrotherQL580N => 0x2029,
            Model::BrotherQL600 => 0x20c0,
            Model::BrotherQL650TD => 0x201b,
            Model::BrotherQL700 => 0x2042,
            Model::BrotherQL1050 => 0x2020,
            Model::BrotherQL1060N => 0x202a,
        }
    }

    /// Bytes per raster line of the model's print head.
    pub fn line_width(&self) -> (r: u8)
        ensures
            r == line_width_of(*self),
    {
        match self {
            Model::BrotherQL1050 | Model::BrotherQL1060N => 162,
            _ => 90,
        }
    }

    /// Whether the model has the wide print head.
    pub fn is_wide(&self) -> (r: bool)
        ensures
            r == is_wide(*self),
    {
        match self {
            Model::BrotherQL1050 | Model::BrotherQL1060N => true,
            _ => false,
        }
    }

    /// The model number as bytes, e.g. `580N`.
    pub fn number(&self) -> (r: Vec<u8>)
        ensures
            r@ == number_of(*self),
    {
        let r = match self {
            Model::BrotherQL500 => vec![0x35, 0x30, 0x30],
            Model::BrotherQL550 => vec![0x35, 0x35, 0x30],
            Model::BrotherQL560 => vec![0x35, 0x36, 0x30],
            Model::BrotherQL570 => vec![0x35, 0x37, 0x30],
            Model::BrotherQL580N => vec![0x35, 0x38, 0x30, 0x4e],
            Model::BrotherQL600 => vec![0x36, 0x30, 0x30],
            Model::BrotherQL650TD => vec![0x36, 0x35, 0x30, 0x54, 0x44],
            Model::BrotherQL700 => vec![0x37, 0x30, 0x30],
            Model::BrotherQL1050 => vec![0x31, 0x30, 0x35, 0x30],
            Model::BrotherQL1060N => vec![0x31, 0x30, 0x36, 0x30, 0x4e],
        };
        assert(r@ =~= number_of(*self));
        r
    }

    /// Parses a model name such as `BrotherQL580N`, `ql700` or `580n`: an
    /// optional `Brother` prefix, then an optional `QL` prefix, then the model
    /// number, all compared without regard to ASCII case.
    pub fn from_name(s: &str) -> (r: Result<Model, UnknownModel>)
        ensures
            r matches Ok(m) ==> eq_ci(name_suffix(s.spec_bytes()), number_of(m)),
            r is Err <==> forall|m: Model| !eq_ci(name_suffix(s.spec_bytes()), number_of(m)),
    {
        let b = s.as_bytes();
        let brother = vec![0x62, 0x72, 0x6f, 0x74, 0x68, 0x65, 0x72];
        let ql = vec![0x71, 0x6c];
        proof {
            assert(brother@ =~= brother_prefix());
            assert(ql@ =~= ql_prefix());
        }
        let mut start: usize = 0;
        assert(b@.subrange(0, b@.len() as int) =~= b@);
        if has_prefix_ci(b, start, &brother) {
            start = brother.len();
        }
        proof {
            assert(b@.subrange(start as int, b@.len() as int) =~= strip_ci(b@, brother_prefix()));
        }
        if has_prefix_ci(b, start, &ql) {
            start = start + ql.len();
        }
        proof {
            assert(b@.subrange(start as int, b@.len() as int) =~= name_suffix(b@));
        }
        let models = model_list();
        let mut i: usize = 0;
        while i < models.len()
            invariant
                models@ == all_models(),
                start <= b@.len(),
                b@.subrange(start as int, b@.len() as int) == name_suffix(s.spec_bytes()),
                0 <= i <= models@.len(),
                forall|j: int|
                    0 <= j < i ==> !eq_ci(name_suffix(s.spec_bytes()), number_of(#[trigger] models@[j])),
            decreases models@.len() - i,
        {
            let m = models[i];
            let num = m.number();
            if equals_ci_from(b, start, &num) {
                return Ok(m);
            }
            i = i + 1;
        }
        proof {
            assert forall|m: Model| !eq_ci(name_suffix(s.spec_bytes()), number_of(m)) by {
                lemma_all_models_complete(m);
                let j = all_models().index_of(m);
                assert(models@[j] == m);
            }
        }
        Err(UnknownModel)
    }

    /// What this model is called, e.g. `Brother QL-580N`.
    pub fn display_name(&self) -> (r: &'static str)
        ensures
            r@ == display_name_of(*self),
    {
        match self {
            Model::BrotherQL500 => "Brother QL-500",
            Model::BrotherQL550 => "Brother QL-550",
            Model::BrotherQL560 => "Brother QL-560",
            Model::BrotherQL570 => "Brother QL-570",
            Model::BrotherQL580N => "Brother QL-580N",
            Model::BrotherQL600 => "Brother QL-600",
            Model::BrotherQL650TD => "Brother QL-650TD",
            Model::BrotherQL700 => "Brother QL-700",
            Model::BrotherQL1050 => "Brother QL-1050",
            Model::BrotherQL1060N => "Brother QL-1060N",
        }
    }
}

/// Every model, in the order of the enumeration.
fn model_list() -> (r: Vec<Model>)
    ensures
        r@ == all_models(),
{
    let r = vec![
        Model::BrotherQL500,
        Model::BrotherQL550,
        Model::BrotherQL560,
        Model::BrotherQL570,
        Model::BrotherQL580N,
        Model::BrotherQL600,
        Model::BrotherQL650TD,
        Model::BrotherQL700,
        Model::BrotherQL1050,
        Model::BrotherQL1060N,
    ];
    assert(r@ =~= all_models());
    r
}

/// Whether `b[start..]` equals `p`, ignoring ASCII case.
fn equals_ci_from(b: &[u8], start: usize, p: &Vec<u8>) -> (r: bool)
    requires
        start <= b@.len(),
    ensures
        r == eq_ci(b@.subrange(start as int, b@.len() as int), p@),
{
    b.len() - start == p.len() && has_prefix_ci(b, start, p)
}

/// Whether `b[start..]` begins with `p`, ignoring ASCII case.
fn has_prefix_ci(b: &[u8], start: usize, p: &Vec<u8>) -> (r: bool)
    requires
        start <= b@.len(),
    ensures
        r == starts_with_ci(b@.subrange(start as int, b@.len() as int), p@),
{
    if b.len() - start < p.len() {
        return false;
    }
    let n = b.len();
    let mut i: usize = 0;
    while i < p.len()
        invariant
            n == b@.len(),
            start + p@.len() <= b@.len(),
            0 <= i <= p@.len(),
            forall|k: int| 0 <= k < i ==> lower(#[trigger] b@[start + k]) == lower(p@[k]),
        decreases p@.len() - i,
    {
        if lower_byte(b[start + i]) != lower_byte(p[i]) {
            proof {
                let t = b@.subrange(start as int, b@.len() as int);
                assert(t[i as int] == b@[start + i]);
            }
            return false;
        }
        i = i + 1;
    }
    proof {
        let t = b@.subrange(start as int, b@.len() as int);
        assert forall|k: int| 0 <= k < p@.len() implies lower(#[trigger] t[k]) == lower(p@[k]) by {
            assert(t[k] == b@[start + k]);
        }
    }
    true
}

/// ASCII lower case of one byte.
fn lower_byte(c: u8) -> (r: u8)
    ensures
        r == lower(c),
{
    if ASCII_UPPER_A <= c && c <= ASCII_UPPER_Z {
        c + 32
    } else {
        c
    }
}

/// How a product identifier under `VENDOR_ID` is to be treated during
/// discovery.
pub open spec fn product_kind_of(pid: u16) -> ProductKind {
    match model_of_product_id(pid) {
        Some(m) => ProductKind::Printer(m),
        None => if pid == MASS_STORAGE_PRODUCT_ID {
            ProductKind::MassStorage
        } else {
            ProductKind::Unknown
        },
    }
}

/// Classifies a product identifier under `VENDOR_ID`.
pub fn classify_product(pid: u16) -> (r: ProductKind)
    ensures
        r == product_kind_of(pid),
{
    match Model::from_product_id(pid) {
        Some(m) => ProductKind::Printer(m),
        None => if pid == MASS_STORAGE_PRODUCT_ID {
            ProductKind::MassStorage
        } else {
            ProductKind::Unknown
        },
    }
}

} // verus!
