//! Result-set metadata and the iterators over the rows of a RESULT/Rows body.
use vstd::prelude::*;
use core::marker::PhantomData;
use crate::column::{pair_spec, ColumnDecoder};
use crate::decoder::{DecodeError, Decoder};
use crate::frame::{bytes, bytes_spec, bytes_view, string, string_spec, RESULT, ROWS};
use crate::wire::{i32_of, u16_of, Reader};

verus! {

/// Metadata flag: one table spec for all columns.
pub const GLOBAL_TABLE_SPEC: i32 = 0x0001;
/// Metadata flag: a paging state follows.
pub const HAS_MORE_PAGES: i32 = 0x0002;
/// Metadata flag: no column specs follow.
pub const NO_METADATA: i32 = 0x0004;

/// The flags of result-set metadata.
#[derive(Clone, Copy, Debug)]
pub struct Flags {
    pub global_table_spec: bool,
    pub has_more_pages: bool,
    pub no_metadata: bool,
}

impl Flags {
    /// The flags that an `i32` sets.
    pub fn from_i32(flags: i32) -> (r: Flags)
        ensures
            r.global_table_spec == (flags & GLOBAL_TABLE_SPEC == GLOBAL_TABLE_SPEC),
            r.has_more_pages == (flags & HAS_MORE_PAGES == HAS_MORE_PAGES),
            r.no_metadata == (flags & NO_METADATA == NO_METADATA),
    {
        Flags {
            global_table_spec: flags & GLOBAL_TABLE_SPEC == GLOBAL_TABLE_SPEC,
            has_more_pages: flags & HAS_MORE_PAGES == HAS_MORE_PAGES,
            no_metadata: flags & NO_METADATA == NO_METADATA,
        }
    }

    /// Whether more pages can be asked for.
    pub fn has_more_pages(&self) -> (r: bool)
        ensures
            r == self.has_more_pages,
    {
        self.has_more_pages
    }

    /// Whether the column specs are left out.
    pub fn no_metadata(&self) -> (r: bool)
        ensures
            r == self.no_metadata,
    {
        self.no_metadata
    }

    /// Whether one table spec stands for all columns.
    pub fn global_table_spec(&self) -> (r: bool)
        ensures
            r == self.global_table_spec,
    {
        self.global_table_spec
    }
}

/// The opaque continuation that a partial result hands back for the next page.
pub struct PagingState {
    pub paging_state: Option<Vec<u8>>,
}

impl PagingState {
    pub fn new(paging_state: Option<Vec<u8>>) -> (r: PagingState)
        ensures
            r.paging_state == paging_state,
    {
        PagingState { paging_state }
    }
}

/// A keyspace and a table.
pub struct TableSpec {
    pub keyspace: String,
    pub table_name: String,
}

impl TableSpec {
    pub fn new(keyspace: String, table_name: String) -> (r: TableSpec)
        ensures
            r.keyspace == keyspace,
            r.table_name == table_name,
    {
        TableSpec { keyspace, table_name }
    }

    pub fn keyspace(&self) -> (r: &String)
        ensures
            r == &self.keyspace,
    {
        &self.keyspace
    }

    pub fn table_name(&self) -> (r: &String)
        ensures
            r == &self.table_name,
    {
        &self.table_name
    }
}

/// The type of a column.
pub enum ColType {
    Custom(String),
    Ascii,
    Bigint,
    Blob,
    Boolean,
    Counter,
    Decimal,
    Double,
    Float,
    Int,
    Timestamp,
    Uuid,
    Varchar,
    Varint,
    Timeuuid,
    Inet,
    Date,
    Time,
    Smallint,
    Tinyint,
    List { element: Box<ColType> },
    MapOf { key: Box<ColType>, value: Box<ColType> },
    SetOf { element: Box<ColType> },
    Udt { ks: String, udt_name: String, fields: Vec<(String, ColType)> },
    Tuple { elements: Vec<ColType> },
}

/// What a column type stands for: its option id, and the types and names nested in it.
pub enum TypeModel {
    Custom(Seq<char>),
    Native(u16),
    List(Box<TypeModel>),
    MapOf(Box<TypeModel>, Box<TypeModel>),
    SetOf(Box<TypeModel>),
    Udt(Seq<char>, Seq<char>, Seq<(Seq<char>, TypeModel)>),
    Tuple(Seq<TypeModel>),
}

/// Whether an option id names a type with nothing nested in it.
pub open spec fn native_id(id: u16) -> bool {
    (1 <= id <= 9) || (11 <= id <= 20)
}

/// The type described at the start of `s`, and what follows it. `fuel` bounds
/// the nesting; more fuel than bytes never runs out.
pub open spec fn type_spec(s: Seq<u8>, fuel: nat) -> Option<(TypeModel, Seq<u8>)>
    decreases fuel, 0nat,
{
    if fuel == 0 || s.len() < 2 {
        None
    } else {
        let id = u16_of(s);
        let t = s.skip(2);
        if id == 0 {
            match string_spec(t) {
                Some(p) => Some((TypeModel::Custom(p.0), t.skip(p.1))),
                None => None,
            }
        } else if native_id(id) {
            Some((TypeModel::Native(id), t))
        } else if id == 32 || id == 34 {
            match type_spec(t, (fuel - 1) as nat) {
                Some(e) => Some((
                    if id == 32 { TypeModel::List(Box::new(e.0)) } else { TypeModel::SetOf(Box::new(e.0)) },
                    e.1,
                )),
                None => None,
            }
        } else if id == 33 {
            match type_spec(t, (fuel - 1) as nat) {
                Some(k) => match type_spec(k.1, (fuel - 1) as nat) {
                    Some(v) => Some((TypeModel::MapOf(Box::new(k.0), Box::new(v.0)), v.1)),
                    None => None,
                },
                None => None,
            }
        } else if id == 48 {
            match string_spec(t) {
                Some(a) => match string_spec(t.skip(a.1)) {
                    Some(b) => {
                        let u = t.skip(a.1).skip(b.1);
                        if u.len() < 2 {
                            None
                        } else {
                            match fields_spec(u.skip(2), u16_of(u) as nat, (fuel - 1) as nat) {
                                Some(f) => Some((TypeModel::Udt(a.0, b.0, f.0), f.1)),
                                None => None,
                            }
                        }
                    },
                    None => None,
                },
                None => None,
            }
        } else if id == 49 {
            if t.len() < 2 {
                None
            } else {
                match elems_spec(t.skip(2), u16_of(t) as nat, (fuel - 1) as nat) {
                    Some(e) => Some((TypeModel::Tuple(e.0), e.1)),
                    None => None,
                }
            }
        } else {
            None
        }
    }
}

/// `n` named field types of a user-defined type, and what follows them.
pub open spec fn fields_spec(s: Seq<u8>, n: nat, fuel: nat) -> Option<(Seq<(Seq<char>, TypeModel)>, Seq<u8>)>
    decreases fuel, n + 1,
{
    if n == 0 {
        Some((Seq::empty(), s))
    } else {
        match fields_spec(s, (n - 1) as nat, fuel) {
            Some(p) => match string_spec(p.1) {
                Some(name) => match type_spec(p.1.skip(name.1), fuel) {
                    Some(t) => Some((p.0.push((name.0, t.0)), t.1)),
                    None => None,
                },
                None => None,
            },
            None => None,
        }
    }
}

/// `n` element types of a tuple type, and what follows them.
pub open spec fn elems_spec(s: Seq<u8>, n: nat, fuel: nat) -> Option<(Seq<TypeModel>, Seq<u8>)>
    decreases fuel, n + 1,
{
    if n == 0 {
        Some((Seq::empty(), s))
    } else {
        match elems_spec(s, (n - 1) as nat, fuel) {
            Some(p) => match type_spec(p.1, fuel) {
                Some(t) => Some((p.0.push(t.0), t.1)),
                None => None,
            },
            None => None,
        }
    }
}

/// The type at the start of `s`, with fuel enough for every nesting it can hold.
pub open spec fn col_type_spec(s: Seq<u8>) -> Option<(TypeModel, Seq<u8>)> {
    type_spec(s, (s.len() + 1) as nat)
}

/// What a column type stands for.
pub open spec fn type_model(t: ColType) -> TypeModel
    decreases t,
{
    match t {
        ColType::Custom(name) => TypeModel::Custom(name@),
        ColType::Ascii => TypeModel::Native(1),
        ColType::Bigint => TypeModel::Native(2),
        ColType::Blob => TypeModel::Native(3),
        ColType::Boolean => TypeModel::Native(4),
        ColType::Counter => TypeModel::Native(5),
        ColType::Decimal => TypeModel::Native(6),
        ColType::Double => TypeModel::Native(7),
        ColType::Float => TypeModel::Native(8),
        ColType::Int => TypeModel::Native(9),
        ColType::Timestamp => TypeModel::Native(11),
        ColType::Uuid => TypeModel::Native(12),
        ColType::Varchar => TypeModel::Native(13),
        ColType::Varint => TypeModel::Native(14),
        ColType::Timeuuid => TypeModel::Native(15),
        ColType::Inet => TypeModel::Native(16),
        ColType::Date => TypeModel::Native(17),
        ColType::Time => TypeModel::Native(18),
        ColType::Smallint => TypeModel::Native(19),
        ColType::Tinyint => TypeModel::Native(20),
        ColType::List { element } => TypeModel::List(Box::new(type_model(*element))),
        ColType::MapOf { key, value } => TypeModel::MapOf(Box::new(type_model(*key)), Box::new(type_model(*value))),
        ColType::SetOf { element } => TypeModel::SetOf(Box::new(type_model(*element))),
        ColType::Udt { ks, udt_name, fields } => TypeModel::Udt(ks@, udt_name@, fields_model(fields@)),
        ColType::Tuple { elements } => TypeModel::Tuple(types_model(elements@)),
    }
}

/// What the field types of a user-defined type stand for.
pub open spec fn fields_model(v: Seq<(String, ColType)>) -> Seq<(Seq<char>, TypeModel)>
    decreases v,
{
    if v.len() == 0 {
        Seq::empty()
    } else {
        fields_model(v.drop_last()).push((v.last().0@, type_model(v.last().1)))
    }
}

/// What the element types of a tuple type stand for.
pub open spec fn types_model(v: Seq<ColType>) -> Seq<TypeModel>
    decreases v,
{
    if v.len() == 0 {
        Seq::empty()
    } else {
        types_model(v.drop_last()).push(type_model(v.last()))
    }
}

/// Once a field fails to read, no longer run of fields reads.
pub proof fn lemma_fields_fail_later(s: Seq<u8>, n: nat, m: nat, fuel: nat)
    requires
        n <= m,
        fields_spec(s, n, fuel) is None,
    ensures
        fields_spec(s, m, fuel) is None,
    decreases m - n,
{
    if n < m {
        lemma_fields_fail_later(s, n, (m - 1) as nat, fuel);
    }
}

/// Once an element fails to read, no longer run of elements reads.
pub proof fn lemma_elems_fail_later(s: Seq<u8>, n: nat, m: nat, fuel: nat)
    requires
        n <= m,
        elems_spec(s, n, fuel) is None,
    ensures
        elems_spec(s, m, fuel) is None,
    decreases m - n,
{
    if n < m {
        lemma_elems_fail_later(s, n, (m - 1) as nat, fuel);
    }
}

impl ColType {
    /// Reads an `[option]` that describes a column type, with the types nested in it.
    pub fn read(reader: &mut Reader) -> (r: Option<ColType>)
        ensures
            final(reader).data() == old(reader).data(),
            final(reader).rest().len() <= old(reader).rest().len(),
            r is Some <==> col_type_spec(old(reader).rest()) is Some,
            r is Some ==> type_model(r->0) == (col_type_spec(old(reader).rest())->0).0
                && final(reader).rest() == (col_type_spec(old(reader).rest())->0).1,
    {
        let ghost fuel = (reader.rest().len() + 1) as nat;
        ColType::read_nested(reader, Ghost(fuel))
    }

    fn read_nested(reader: &mut Reader, fuel: Ghost<nat>) -> (r: Option<ColType>)
        requires
            fuel@ > old(reader).rest().len(),
        ensures
            final(reader).data() == old(reader).data(),
            final(reader).rest().len() <= old(reader).rest().len(),
            r is Some <==> type_spec(old(reader).rest(), fuel@) is Some,
            r is Some ==> type_model(r->0) == (type_spec(old(reader).rest(), fuel@)->0).0
                && final(reader).rest() == (type_spec(old(reader).rest(), fuel@)->0).1,
        decreases fuel@,
    {
        let ghost start = reader.rest();
        let ghost inner = (fuel@ - 1) as nat;
        let id = match reader.read_u16() {
            Some(id) => id,
            None => return None,
        };
        match id {
            0 => match string(reader) {
                Some(name) => Some(ColType::Custom(name)),
                None => None,
            },
            1 => Some(ColType::Ascii),
            2 => Some(ColType::Bigint),
            3 => Some(ColType::Blob),
            4 => Some(ColType::Boolean),
            5 => Some(ColType::Counter),
            6 => Some(ColType::Decimal),
            7 => Some(ColType::Double),
            8 => Some(ColType::Float),
            9 => Some(ColType::Int),
            11 => Some(ColType::Timestamp),
            12 => Some(ColType::Uuid),
            13 => Some(ColType::Varchar),
            14 => Some(ColType::Varint),
            15 => Some(ColType::Timeuuid),
            16 => Some(ColType::Inet),
            17 => Some(ColType::Date),
            18 => Some(ColType::Time),
            19 => Some(ColType::Smallint),
            20 => Some(ColType::Tinyint),
            32 => match ColType::read_nested(reader, Ghost(inner)) {
                Some(e) => Some(ColType::List { element: Box::new(e) }),
                None => None,
            },
            34 => match ColType::read_nested(reader, Ghost(inner)) {
                Some(e) => Some(ColType::SetOf { element: Box::new(e) }),
                None => None,
            },
            33 => {
                let key = match ColType::read_nested(reader, Ghost(inner)) {
                    Some(k) => k,
                    None => return None,
                };
                let value = match ColType::read_nested(reader, Ghost(inner)) {
                    Some(v) => v,
                    None => return None,
                };
                Some(ColType::MapOf { key: Box::new(key), value: Box::new(value) })
            },
            48 => {
                let ks = match string(reader) {
                    Some(s) => s,
                    None => return None,
                };
                let udt_name = match string(reader) {
                    Some(s) => s,
                    None => return None,
                };
                let n = match reader.read_u16() {
                    Some(n) => n,
                    None => return None,
                };
                let ghost u2 = reader.rest();
                let mut fields: Vec<(String, ColType)> = Vec::new();
                let mut i: u16 = 0;
                while i < n
                    invariant
                        i <= n,
                        inner + 1 == fuel@,
                        fuel@ > start.len(),
                        start == old(reader).rest(),
                        reader.data() == old(reader).data(),
                        reader.rest().len() <= u2.len(),
                        u2.len() + 2 <= start.len(),
                        fields_spec(u2, n as nat, inner) is None ==> type_spec(start, fuel@) is None,
                        fields_spec(u2, i as nat, inner) is Some,
                        fields_model(fields@) == (fields_spec(u2, i as nat, inner)->0).0,
                        reader.rest() == (fields_spec(u2, i as nat, inner)->0).1,
                    decreases n - i,
                {
                    let ghost prev = fields@;
                    let name = match string(reader) {
                        Some(s) => s,
                        None => {
                            proof { lemma_fields_fail_later(u2, (i + 1) as nat, n as nat, inner); }
                            return None;
                        },
                    };
                    let t = match ColType::read_nested(reader, Ghost(inner)) {
                        Some(t) => t,
                        None => {
                            proof { lemma_fields_fail_later(u2, (i + 1) as nat, n as nat, inner); }
                            return None;
                        },
                    };
                    fields.push((name, t));
                    proof {
                        assert(fields@.drop_last() =~= prev);
                    }
                    i = i + 1;
                }
                Some(ColType::Udt { ks, udt_name, fields })
            },
            49 => {
                let n = match reader.read_u16() {
                    Some(n) => n,
                    None => return None,
                };
                let ghost u2 = reader.rest();
                let mut elements: Vec<ColType> = Vec::new();
                let mut i: u16 = 0;
                while i < n
                    invariant
                        i <= n,
                        inner + 1 == fuel@,
                        fuel@ > start.len(),
                        start == old(reader).rest(),
                        reader.data() == old(reader).data(),
                        reader.rest().len() <= u2.len(),
                        u2.len() + 4 <= start.len(),
                        elems_spec(u2, n as nat, inner) is None ==> type_spec(start, fuel@) is None,
                        elems_spec(u2, i as nat, inner) is Some,
                        types_model(elements@) == (elems_spec(u2, i as nat, inner)->0).0,
                        reader.rest() == (elems_spec(u2, i as nat, inner)->0).1,
                    decreases n - i,
                {
                    let ghost prev = elements@;
                    let t = match ColType::read_nested(reader, Ghost(inner)) {
                        Some(t) => t,
                        None => {
                            proof { lemma_elems_fail_later(u2, (i + 1) as nat, n as nat, inner); }
                            return None;
                        },
                    };
                    elements.push(t);
                    proof {
                        assert(elements@.drop_last() =~= prev);
                    }
                    i = i + 1;
                }
                Some(ColType::Tuple { elements })
            },
            _ => None,
        }
    }
}

/// The name and type of a column, and its table unless one table stands for all.
pub struct ColumnSpec {
    pub table_spec: Option<TableSpec>,
    pub col_name: String,
    pub col_type: ColType,
}

impl ColumnSpec {
    pub fn new(table_spec: Option<TableSpec>, col_name: String, col_type: ColType) -> (r: ColumnSpec)
        ensures
            r.table_spec == table_spec,
            r.col_name == col_name,
            r.col_type == col_type,
    {
        ColumnSpec { table_spec, col_name, col_type }
    }

    pub fn table_spec(&self) -> (r: Option<&TableSpec>)
        ensures
            r is Some <==> self.table_spec is Some,
            r is Some ==> *r->0 == self.table_spec->0,
    {
        match &self.table_spec {
            Some(t) => Some(t),
            None => None,
        }
    }

    pub fn col_name(&self) -> (r: &String)
        ensures
            r == &self.col_name,
    {
        &self.col_name
    }

    pub fn col_type(&self) -> (r: &ColType)
        ensures
            r == &self.col_type,
    {
        &self.col_type
    }
}

/// The metadata of a result set.
pub struct Metadata {
    pub flags: Flags,
    pub columns_count: i32,
    pub paging_state: PagingState,
    pub global_table_spec: Option<TableSpec>,
    pub columns_specs: Vec<ColumnSpec>,
}

impl Metadata {
    pub fn new(
        flags: Flags,
        columns_count: i32,
        paging_state: PagingState,
        global_table_spec: Option<TableSpec>,
        columns_specs: Vec<ColumnSpec>,
    ) -> (r: Metadata)
        ensures
            r.flags == flags,
            r.columns_count == columns_count,
            r.paging_state == paging_state,
            r.global_table_spec == global_table_spec,
            r.columns_specs == columns_specs,
    {
        Metadata { flags, columns_count, paging_state, global_table_spec, columns_specs }
    }

    /// The table spec shared by all columns, when the flag says so.
    pub fn global_table_spec(&self) -> (r: Option<&TableSpec>)
        ensures
            r is Some <==> self.global_table_spec is Some,
            r is Some ==> *r->0 == self.global_table_spec->0,
    {
        match &self.global_table_spec {
            Some(t) => Some(t),
            None => None,
        }
    }

    pub fn column_specs(&self) -> (r: &Vec<ColumnSpec>)
        ensures
            r == &self.columns_specs,
    {
        &self.columns_specs
    }

    /// Takes the paging state out.
    pub fn take_paging_state(&mut self) -> (r: Option<Vec<u8>>)
        ensures
            r == old(self).paging_state.paging_state,
            final(self).paging_state.paging_state is None,
            final(self).flags == old(self).flags,
            final(self).columns_count == old(self).columns_count,
    {
        self.paging_state.paging_state.take()
    }

    pub fn get_paging_state(&self) -> (r: Option<&Vec<u8>>)
        ensures
            r is Some <==> self.paging_state.paging_state is Some,
            r is Some ==> *r->0 == self.paging_state.paging_state->0,
    {
        match &self.paging_state.paging_state {
            Some(p) => Some(p),
            None => None,
        }
    }

    pub fn has_more_pages(&self) -> (r: bool)
        ensures
            r == self.flags.has_more_pages,
    {
        self.flags.has_more_pages
    }
}

/// What a column spec holds: its table unless one table stands for all, its name and its type.
pub struct ColumnModel {
    pub table: Option<(Seq<char>, Seq<char>)>,
    pub name: Seq<char>,
    pub col_type: TypeModel,
}

/// What result-set metadata holds, and where the rows start.
pub struct MetadataModel {
    pub flags: i32,
    pub columns_count: i32,
    /// Present when the flags say that more pages follow; inside, absent for a NULL state.
    pub paging: Option<Option<Seq<u8>>>,
    pub global: Option<(Seq<char>, Seq<char>)>,
    pub columns: Seq<ColumnModel>,
    pub rest: Seq<u8>,
}

/// A column's name and type at the start of `s`, with the given table.
pub open spec fn name_and_type_spec(s: Seq<u8>, table: Option<(Seq<char>, Seq<char>)>) -> Option<(ColumnModel, Seq<u8>)> {
    match string_spec(s) {
        Some(n) => match col_type_spec(s.skip(n.1)) {
            Some(t) => Some((ColumnModel { table, name: n.0, col_type: t.0 }, t.1)),
            None => None,
        },
        None => None,
    }
}

/// A keyspace and a table name at the start of `s`.
pub open spec fn table_spec_spec(s: Seq<u8>) -> Option<((Seq<char>, Seq<char>), Seq<u8>)> {
    match string_spec(s) {
        Some(k) => match string_spec(s.skip(k.1)) {
            Some(t) => Some(((k.0, t.0), s.skip(k.1).skip(t.1))),
            None => None,
        },
        None => None,
    }
}

/// One column spec at the start of `s`; `global` leaves the table spec out.
pub open spec fn column_spec_spec(s: Seq<u8>, global: bool) -> Option<(ColumnModel, Seq<u8>)> {
    if global {
        name_and_type_spec(s, None)
    } else {
        match table_spec_spec(s) {
            Some(t) => name_and_type_spec(t.1, Some(t.0)),
            None => None,
        }
    }
}

/// `n` column specs one after another, and what follows them.
pub open spec fn columns_spec(s: Seq<u8>, n: int, global: bool) -> Option<(Seq<ColumnModel>, Seq<u8>)>
    decreases n,
{
    if n <= 0 {
        Some((Seq::empty(), s))
    } else {
        match columns_spec(s, n - 1, global) {
            Some(p) => match column_spec_spec(p.1, global) {
                Some(c) => Some((p.0.push(c.0), c.1)),
                None => None,
            },
            None => None,
        }
    }
}

/// Once a column spec fails to read, no longer run of them reads.
pub proof fn lemma_columns_fail_later(s: Seq<u8>, n: int, m: int, global: bool)
    requires
        n <= m,
        columns_spec(s, n, global) is None,
    ensures
        columns_spec(s, m, global) is None,
    decreases m - n,
{
    if n < m {
        lemma_columns_fail_later(s, n, m - 1, global);
    }
}

/// The columns part of metadata: none without metadata, else an optional
/// global table spec and the column specs.
pub open spec fn specs_spec(s: Seq<u8>, flags: i32, count: i32) -> Option<(Option<(Seq<char>, Seq<char>)>, Seq<ColumnModel>, Seq<u8>)> {
    if flags & NO_METADATA == NO_METADATA {
        Some((None, Seq::empty(), s))
    } else if flags & GLOBAL_TABLE_SPEC == GLOBAL_TABLE_SPEC {
        match table_spec_spec(s) {
            Some(t) => match columns_spec(t.1, count as int, true) {
                Some(c) => Some((Some(t.0), c.0, c.1)),
                None => None,
            },
            None => None,
        }
    } else {
        match columns_spec(s, count as int, false) {
            Some(c) => Some((None, c.0, c.1)),
            None => None,
        }
    }
}

/// `<flags><columns_count>[<paging_state>][<global_table_spec>?<col_spec>*]`.
pub open spec fn metadata_spec(s: Seq<u8>) -> Option<MetadataModel> {
    if s.len() < 8 {
        None
    } else {
        let flags = i32_of(s);
        let count = i32_of(s.skip(4));
        let s8 = s.skip(8);
        let paged = flags & HAS_MORE_PAGES == HAS_MORE_PAGES;
        let pg = if paged {
            match bytes_spec(s8) {
                Some(b) => Some((Some(b.0), s8.skip(b.1))),
                None => None,
            }
        } else {
            Some((None, s8))
        };
        match pg {
            Some(p) => match specs_spec(p.1, flags, count) {
                Some(c) => Some(MetadataModel { flags, columns_count: count, paging: p.0, global: c.0, columns: c.1, rest: c.2 }),
                None => None,
            },
            None => None,
        }
    }
}

/// What a table spec holds.
pub open spec fn table_view(t: Option<TableSpec>) -> Option<(Seq<char>, Seq<char>)> {
    match t {
        Some(t) => Some((t.keyspace@, t.table_name@)),
        None => None,
    }
}

/// What a column spec holds.
pub open spec fn column_model(c: ColumnSpec) -> ColumnModel {
    ColumnModel { table: table_view(c.table_spec), name: c.col_name@, col_type: type_model(c.col_type) }
}

/// What a list of column specs holds.
pub open spec fn column_models(v: Seq<ColumnSpec>) -> Seq<ColumnModel> {
    v.map_values(|c: ColumnSpec| column_model(c))
}

/// Whether metadata holds what the model says.
pub open spec fn metadata_matches(m: Metadata, mm: MetadataModel) -> bool {
    &&& m.flags == Flags {
        global_table_spec: mm.flags & GLOBAL_TABLE_SPEC == GLOBAL_TABLE_SPEC,
        has_more_pages: mm.flags & HAS_MORE_PAGES == HAS_MORE_PAGES,
        no_metadata: mm.flags & NO_METADATA == NO_METADATA,
    }
    &&& m.columns_count == mm.columns_count
    &&& match mm.paging {
        Some(p) => bytes_view(m.paging_state.paging_state) == p,
        None => m.paging_state.paging_state is None,
    }
    &&& table_view(m.global_table_spec) == mm.global
    &&& column_models(m.columns_specs@) == mm.columns
}

/// Reads a keyspace and a table name.
fn read_table_spec(reader: &mut Reader) -> (r: Option<TableSpec>)
    ensures
        final(reader).data() == old(reader).data(),
        final(reader).rest().len() <= old(reader).rest().len(),
        r is Some <==> table_spec_spec(old(reader).rest()) is Some,
        r is Some ==> table_view(r) == Some((table_spec_spec(old(reader).rest())->0).0)
            && final(reader).rest() == (table_spec_spec(old(reader).rest())->0).1,
{
    let keyspace = match string(reader) {
        Some(k) => k,
        None => return None,
    };
    let table_name = match string(reader) {
        Some(t) => t,
        None => return None,
    };
    Some(TableSpec::new(keyspace, table_name))
}

/// Reads one column spec; `global` leaves the table spec out.
fn read_column_spec(reader: &mut Reader, global: bool) -> (r: Option<ColumnSpec>)
    ensures
        final(reader).data() == old(reader).data(),
        final(reader).rest().len() <= old(reader).rest().len(),
        r is Some <==> column_spec_spec(old(reader).rest(), global) is Some,
        r is Some ==> column_model(r->0) == (column_spec_spec(old(reader).rest(), global)->0).0
            && final(reader).rest() == (column_spec_spec(old(reader).rest(), global)->0).1,
{
    let table_spec = if global {
        None
    } else {
        match read_table_spec(reader) {
            Some(t) => Some(t),
            None => return None,
        }
    };
    let col_name = match string(reader) {
        Some(n) => n,
        None => return None,
    };
    let col_type = match ColType::read(reader) {
        Some(t) => t,
        None => return None,
    };
    Some(ColumnSpec::new(table_spec, col_name, col_type))
}

impl Decoder {
    /// Whether the decoder holds a Rows result.
    pub open spec fn holds_rows(&self) -> bool {
        self.header.buffer@[4] == RESULT && self.header_flags.body_kind == ROWS
    }

    /// Reads the metadata at the start of a Rows result, leaving the reader
    /// at the row count.
    pub fn metadata(&mut self) -> (r: Result<Metadata, DecodeError>)
        ensures
            final(self).header == old(self).header,
            final(self).header_flags == old(self).header_flags,
            final(self).reader.data() == old(self).reader.data(),
            !old(self).holds_rows() ==> r == Err::<Metadata, DecodeError>(DecodeError::UnexpectedKind),
            old(self).holds_rows() ==> (r is Ok <==> metadata_spec(old(self).reader.rest()) is Some),
            r is Err ==> final(self).reader.rest().len() <= old(self).reader.rest().len(),
            old(self).holds_rows() && r is Err ==> r == Err::<Metadata, DecodeError>(DecodeError::Malformed),
            r is Ok ==> metadata_matches(r->Ok_0, metadata_spec(old(self).reader.rest())->0)
                && final(self).reader.rest() == (metadata_spec(old(self).reader.rest())->0).rest,
    {
        if !(self.header.opcode() == RESULT && self.header_flags.body_kind() == ROWS) {
            return Err(DecodeError::UnexpectedKind);
        }
        let ghost s = self.reader.rest();
        let raw = match self.reader.read_i32() {
            Some(f) => f,
            None => return Err(DecodeError::Malformed),
        };
        let flags = Flags::from_i32(raw);
        let columns_count = match self.reader.read_i32() {
            Some(c) => c,
            None => return Err(DecodeError::Malformed),
        };
        assert(s.skip(4).skip(4) =~= s.skip(8));
        let paging = if flags.has_more_pages() {
            match bytes(&mut self.reader) {
                Some(p) => p,
                None => return Err(DecodeError::Malformed),
            }
        } else {
            None
        };
        let ghost pg: Option<Option<Seq<u8>>> = if flags.has_more_pages { Some(bytes_view(paging)) } else { None };
        let mut global_table_spec: Option<TableSpec> = None;
        let mut columns_specs: Vec<ColumnSpec> = Vec::new();
        if !flags.no_metadata() {
            let global = flags.global_table_spec();
            if global {
                match read_table_spec(&mut self.reader) {
                    Some(t) => global_table_spec = Some(t),
                    None => return Err(DecodeError::Malformed),
                }
            }
            let ghost cs = self.reader.rest();
            let mut i: i32 = 0;
            while i < columns_count
                invariant
                    0 <= i,
                    columns_count >= 0 ==> i <= columns_count,
                    columns_count < 0 ==> i == 0,
                    old(self).holds_rows(),
                    self.reader.data() == old(self).reader.data(),
                    self.header == old(self).header,
                    self.header_flags == old(self).header_flags,
                    self.reader.rest().len() <= old(self).reader.rest().len(),
                    cs.len() <= old(self).reader.rest().len(),
                    metadata_spec(old(self).reader.rest()) == match columns_spec(cs, columns_count as int, global) {
                        Some(c) => Some(MetadataModel {
                            flags: raw,
                            columns_count,
                            paging: pg,
                            global: table_view(global_table_spec),
                            columns: c.0,
                            rest: c.1,
                        }),
                        None => None,
                    },
                    columns_spec(cs, i as int, global) is Some,
                    column_models(columns_specs@) == (columns_spec(cs, i as int, global)->0).0,
                    self.reader.rest() == (columns_spec(cs, i as int, global)->0).1,
                decreases columns_count - i,
            {
                let ghost prev = columns_specs@;
                let spec = match read_column_spec(&mut self.reader, global) {
                    Some(c) => c,
                    None => {
                        proof { lemma_columns_fail_later(cs, i + 1, columns_count as int, global); }
                        return Err(DecodeError::Malformed);
                    },
                };
                columns_specs.push(spec);
                assert(columns_specs@ =~= prev.push(spec));
                assert(column_models(columns_specs@) =~= column_models(prev).push(column_model(spec)));
                i = i + 1;
            }
        }
        let m = Metadata::new(flags, columns_count, PagingState::new(paging), global_table_spec, columns_specs);
        proof {
            let mm = metadata_spec(s)->0;
            assert(metadata_spec(s) is Some);
            assert(mm.flags == raw);
            assert(mm.columns_count == columns_count);
            assert(mm.paging == pg);
            assert(mm.global == table_view(m.global_table_spec));
            assert(mm.columns == column_models(m.columns_specs@));
            assert(mm.rest == self.reader.rest());
        }
        Ok(m)
    }
}

/// A source of the cell values of a result set, read one after another.
pub trait ColumnValue {
    /// The bytes of the cells that are still to be read.
    spec fn cells(&self) -> Seq<u8>;

    /// Reads the next cell as a value of type `C`.
    fn column_value<C: ColumnDecoder>(&mut self) -> (r: Option<C>)
        ensures
            r is Some <==> C::value_spec(old(self).cells()) is Some,
            r is Some ==> r->0.model() == (C::value_spec(old(self).cells())->0).0
                && final(self).cells() == old(self).cells().skip((C::value_spec(old(self).cells())->0).1),
    ;
}

/// A row of a result set, decoded cell by cell.
pub trait Row: Sized {
    /// What a decoded row stands for.
    type Model;

    spec fn row_model(&self) -> Self::Model;

    /// The row at the start of the cells `s`, and the cells after it.
    spec fn row_spec(s: Seq<u8>) -> Option<(Self::Model, Seq<u8>)>;

    fn try_decode_row<R: ColumnValue>(rows: &mut R) -> (r: Option<Self>)
        ensures
            r is Some <==> Self::row_spec(old(rows).cells()) is Some,
            r is Some ==> r->0.row_model() == (Self::row_spec(old(rows).cells())->0).0
                && final(rows).cells() == (Self::row_spec(old(rows).cells())->0).1,
    ;
}

/// Three cells, one after another.
pub open spec fn triple_spec<A: ColumnDecoder, B: ColumnDecoder, C: ColumnDecoder>(s: Seq<u8>) -> Option<((A::Model, B::Model, C::Model), Seq<u8>)> {
    match A::value_spec(s) {
        Some(x) => match pair_spec::<B, C>(s.skip(x.1)) {
            Some(p) => Some(((x.0, (p.0).0, (p.0).1), p.1)),
            None => None,
        },
        None => None,
    }
}

/// Four cells, one after another.
pub open spec fn quad_spec<A: ColumnDecoder, B: ColumnDecoder, C: ColumnDecoder, D: ColumnDecoder>(s: Seq<u8>) -> Option<((A::Model, B::Model, C::Model, D::Model), Seq<u8>)> {
    match A::value_spec(s) {
        Some(x) => match triple_spec::<B, C, D>(s.skip(x.1)) {
            Some(p) => Some(((x.0, (p.0).0, (p.0).1, (p.0).2), p.1)),
            None => None,
        },
        None => None,
    }
}

impl<A: ColumnDecoder, B: ColumnDecoder> Row for (A, B) {
    type Model = (A::Model, B::Model);

    open spec fn row_model(&self) -> (A::Model, B::Model) {
        (self.0.model(), self.1.model())
    }

    open spec fn row_spec(s: Seq<u8>) -> Option<((A::Model, B::Model), Seq<u8>)> {
        pair_spec::<A, B>(s)
    }

    fn try_decode_row<R: ColumnValue>(rows: &mut R) -> (r: Option<(A, B)>) {
        let a = match rows.column_value::<A>() {
            Some(a) => a,
            None => return None,
        };
        let b = match rows.column_value::<B>() {
            Some(b) => b,
            None => return None,
        };
        Some((a, b))
    }
}

impl<A: ColumnDecoder, B: ColumnDecoder, C: ColumnDecoder> Row for (A, B, C) {
    type Model = (A::Model, B::Model, C::Model);

    open spec fn row_model(&self) -> (A::Model, B::Model, C::Model) {
        (self.0.model(), self.1.model(), self.2.model())
    }

    open spec fn row_spec(s: Seq<u8>) -> Option<((A::Model, B::Model, C::Model), Seq<u8>)> {
        triple_spec::<A, B, C>(s)
    }

    fn try_decode_row<R: ColumnValue>(rows: &mut R) -> (r: Option<(A, B, C)>) {
        let a = match rows.column_value::<A>() {
            Some(a) => a,
            None => return None,
        };
        let b = match rows.column_value::<B>() {
            Some(b) => b,
            None => return None,
        };
        let c = match rows.column_value::<C>() {
            Some(c) => c,
            None => return None,
        };
        Some((a, b, c))
    }
}

impl<A: ColumnDecoder, B: ColumnDecoder, C: ColumnDecoder, D: ColumnDecoder> Row for (A, B, C, D) {
    type Model = (A::Model, B::Model, C::Model, D::Model);

    open spec fn row_model(&self) -> (A::Model, B::Model, C::Model, D::Model) {
        (self.0.model(), self.1.model(), self.2.model(), self.3.model())
    }

    open spec fn row_spec(s: Seq<u8>) -> Option<((A::Model, B::Model, C::Model, D::Model), Seq<u8>)> {
        quad_spec::<A, B, C, D>(s)
    }

    fn try_decode_row<R: ColumnValue>(rows: &mut R) -> (r: Option<(A, B, C, D)>) {
        let a = match rows.column_value::<A>() {
            Some(a) => a,
            None => return None,
        };
        let b = match rows.column_value::<B>() {
            Some(b) => b,
            None => return None,
        };
        let c = match rows.column_value::<C>() {
            Some(c) => c,
            None => return None,
        };
        let d = match rows.column_value::<D>() {
            Some(d) => d,
            None => return None,
        };
        Some((a, b, c, d))
    }
}

/// The metadata of a Rows body and the row count after it.
pub open spec fn rows_header_spec(s: Seq<u8>) -> Option<(MetadataModel, i32)> {
    match metadata_spec(s) {
        Some(m) => if m.rest.len() >= 4 && i32_of(m.rest) >= 0 { Some((m, i32_of(m.rest))) } else { None },
        None => None,
    }
}

/// Whether a Rows body can be walked cell by cell: its metadata and row count
/// read, and the number of cells fits a `usize`.
pub open spec fn cells_fit(s: Seq<u8>) -> bool {
    let h = rows_header_spec(s);
    &&& h is Some
    &&& (h->0).0.columns_count >= 0
    &&& (h->0).0.columns_count * (h->0).1 <= usize::MAX
}

/// Whether an iterator over `d` starts where the rows do, with the decoder's
/// header kept and the metadata and row count that the body holds.
pub open spec fn rows_start(d: Decoder, metadata: Metadata, rows_count: usize, d0: Decoder) -> bool {
    let h = rows_header_spec(d0.reader.rest())->0;
    &&& rows_header_spec(d0.reader.rest()) is Some
    &&& metadata_matches(metadata, h.0)
    &&& rows_count == h.1
    &&& d.header == d0.header
    &&& d.header_flags == d0.header_flags
    &&& d.reader.data() == d0.reader.data()
    &&& d.reader.rest() == h.0.rest.skip(4)
}

/// Reads the row count that follows the metadata.
fn read_rows_count(decoder: &mut Decoder) -> (r: Result<usize, DecodeError>)
    ensures
        final(decoder).header == old(decoder).header,
        final(decoder).header_flags == old(decoder).header_flags,
        final(decoder).reader.data() == old(decoder).reader.data(),
        r is Ok <==> old(decoder).reader.rest().len() >= 4 && i32_of(old(decoder).reader.rest()) >= 0,
        r is Ok ==> r->Ok_0 == i32_of(old(decoder).reader.rest())
            && final(decoder).reader.rest() == old(decoder).reader.rest().skip(4),
{
    match decoder.reader.read_i32() {
        Some(n) => {
            if n < 0 {
                Err(DecodeError::Malformed)
            } else {
                Ok(n as usize)
            }
        },
        None => Err(DecodeError::Malformed),
    }
}

/// The cells of a result set, read as values of any type, one at a time.
pub struct AnyIter {
    pub decoder: Decoder,
    pub rows_count: usize,
    pub remaining_total_columns_count: usize,
    pub metadata: Metadata,
}

impl AnyIter {
    /// Reads the metadata and the row count of a Rows result.
    pub fn new(decoder: Decoder) -> (r: Result<AnyIter, DecodeError>)
        ensures
            !decoder.holds_rows() ==> r == Err::<AnyIter, DecodeError>(DecodeError::UnexpectedKind),
            decoder.holds_rows() ==> (r is Ok <==> cells_fit(decoder.reader.rest())),
            r is Ok ==> rows_start(r->Ok_0.decoder, r->Ok_0.metadata, r->Ok_0.rows_count, decoder)
                && r->Ok_0.remaining_total_columns_count == r->Ok_0.metadata.columns_count * r->Ok_0.rows_count,
    {
        let mut decoder = decoder;
        let metadata = match decoder.metadata() {
            Ok(m) => m,
            Err(e) => return Err(e),
        };
        let rows_count = match read_rows_count(&mut decoder) {
            Ok(n) => n,
            Err(e) => return Err(e),
        };
        if metadata.columns_count < 0 {
            return Err(DecodeError::Malformed);
        }
        let cols = metadata.columns_count as u64;
        let rows = rows_count as u64;
        assert(cols * rows <= 0x4000_0000_0000_0000) by (nonlinear_arith)
            requires
                cols <= 0x8000_0000,
                rows <= 0x8000_0000,
        ;
        let total = cols * rows;
        if total > usize::MAX as u64 {
            return Err(DecodeError::Malformed);
        }
        Ok(AnyIter { decoder, rows_count, remaining_total_columns_count: total as usize, metadata })
    }

    /// Decodes the next row, while cells remain.
    pub fn next<T: Row>(&mut self) -> (r: Option<T>)
        ensures
            old(self).remaining_total_columns_count == 0 ==> r is None,
            old(self).remaining_total_columns_count > 0 ==> {
                &&& r is Some <==> T::row_spec(old(self).cells()) is Some
                &&& r is Some ==> r->0.row_model() == (T::row_spec(old(self).cells())->0).0
            },
    {
        if self.remaining_total_columns_count > 0 {
            T::try_decode_row(self)
        } else {
            None
        }
    }

    /// Takes the paging state out.
    pub fn take_paging_state(&mut self) -> (r: Option<Vec<u8>>)
        ensures
            r == old(self).metadata.paging_state.paging_state,
    {
        self.metadata.take_paging_state()
    }

    pub fn is_empty(&self) -> (r: bool)
        ensures
            r == (self.rows_count == 0),
    {
        self.rows_count == 0
    }

    pub fn rows_count(&self) -> (r: usize)
        ensures
            r == self.rows_count,
    {
        self.rows_count
    }

    pub fn remaining_total_columns_count(&self) -> (r: usize)
        ensures
            r == self.remaining_total_columns_count,
    {
        self.remaining_total_columns_count
    }

    pub fn columns_count(&self) -> (r: usize)
        ensures
            r == self.metadata.columns_count as usize,
    {
        self.metadata.columns_count as usize
    }

    pub fn has_more_pages(&self) -> (r: bool)
        ensures
            r == self.metadata.flags.has_more_pages,
    {
        self.metadata.has_more_pages()
    }
}

impl ColumnValue for AnyIter {
    open spec fn cells(&self) -> Seq<u8> {
        self.decoder.reader.rest()
    }

    fn column_value<C: ColumnDecoder>(&mut self) -> (r: Option<C>) {
        if self.remaining_total_columns_count > 0 {
            self.remaining_total_columns_count = self.remaining_total_columns_count - 1;
        }
        C::try_decode(&mut self.decoder.reader)
    }
}

/// The rows of a result set, decoded as values of type `T`.
pub struct Iter<T: Row> {
    pub decoder: Decoder,
    pub rows_count: usize,
    pub remaining_rows_count: usize,
    pub metadata: Metadata,
    pub marker: PhantomData<T>,
}

impl<T: Row> Iter<T> {
    /// Reads the metadata and the row count of a Rows result.
    pub fn new(decoder: Decoder) -> (r: Result<Iter<T>, DecodeError>)
        ensures
            !decoder.holds_rows() ==> r == Err::<Iter<T>, DecodeError>(DecodeError::UnexpectedKind),
            decoder.holds_rows() ==> (r is Ok <==> rows_header_spec(decoder.reader.rest()) is Some),
            r is Ok ==> rows_start(r->Ok_0.decoder, r->Ok_0.metadata, r->Ok_0.rows_count, decoder)
                && r->Ok_0.remaining_rows_count == r->Ok_0.rows_count,
    {
        let mut decoder = decoder;
        let metadata = match decoder.metadata() {
            Ok(m) => m,
            Err(e) => return Err(e),
        };
        let rows_count = match read_rows_count(&mut decoder) {
            Ok(n) => n,
            Err(e) => return Err(e),
        };
        Ok(Iter { decoder, rows_count, remaining_rows_count: rows_count, metadata, marker: PhantomData })
    }

    /// The rows of a Rows result, or nothing for an empty last page.
    pub fn try_decode_rows(decoder: Decoder) -> (r: Result<Option<Iter<T>>, DecodeError>)
        ensures
            !decoder.holds_rows() ==> r == Err::<Option<Iter<T>>, DecodeError>(DecodeError::UnexpectedKind),
            decoder.holds_rows() ==> (r is Ok <==> rows_header_spec(decoder.reader.rest()) is Some),
            r is Ok ==> {
                let h = rows_header_spec(decoder.reader.rest())->0;
                &&& (r->Ok_0 is None <==> h.1 == 0 && h.0.flags & HAS_MORE_PAGES != HAS_MORE_PAGES)
                &&& r->Ok_0 is Some ==> rows_start(r->Ok_0->0.decoder, r->Ok_0->0.metadata, r->Ok_0->0.rows_count, decoder)
                    && r->Ok_0->0.remaining_rows_count == r->Ok_0->0.rows_count
            },
    {
        let it = match Iter::new(decoder) {
            Ok(it) => it,
            Err(e) => return Err(e),
        };
        if it.is_empty() && !it.has_more_pages() {
            Ok(None)
        } else {
            Ok(Some(it))
        }
    }

    /// Decodes the next row, while rows remain.
    pub fn next(&mut self) -> (r: Option<T>)
        ensures
            old(self).remaining_rows_count == 0 ==> r is None,
            old(self).remaining_rows_count > 0 ==> {
                &&& r is Some <==> T::row_spec(old(self).cells()) is Some
                &&& r is Some ==> r->0.row_model() == (T::row_spec(old(self).cells())->0).0
            },
    {
        if self.remaining_rows_count > 0 {
            self.remaining_rows_count = self.remaining_rows_count - 1;
            T::try_decode_row(self)
        } else {
            None
        }
    }

    pub fn take_paging_state(&mut self) -> (r: Option<Vec<u8>>)
        ensures
            r == old(self).metadata.paging_state.paging_state,
    {
        self.metadata.take_paging_state()
    }

    pub fn is_empty(&self) -> (r: bool)
        ensures
            r == (self.rows_count == 0),
    {
        self.rows_count == 0
    }

    pub fn rows_count(&self) -> (r: usize)
        ensures
            r == self.rows_count,
    {
        self.rows_count
    }

    pub fn remaining_rows_count(&self) -> (r: usize)
        ensures
            r == self.remaining_rows_count,
    {
        self.remaining_rows_count
    }

    pub fn has_more_pages(&self) -> (r: bool)
        ensures
            r == self.metadata.flags.has_more_pages,
    {
        self.metadata.has_more_pages()
    }
}

impl<T: Row> ColumnValue for Iter<T> {
    open spec fn cells(&self) -> Seq<u8> {
        self.decoder.reader.rest()
    }

    fn column_value<C: ColumnDecoder>(&mut self) -> (r: Option<C>) {
        C::try_decode(&mut self.decoder.reader)
    }
}

/// The cells of a result set, all of type `T`, row after row.
pub struct ColumnIter<T: ColumnDecoder> {
    pub decoder: Decoder,
    pub rows_count: usize,
    pub remaining_rows_count: usize,
    pub remaining_columns_count: usize,
    pub metadata: Metadata,
    pub marker: PhantomData<T>,
}

impl<T: ColumnDecoder> ColumnIter<T> {
    /// Reads the metadata and the row count of a Rows result.
    pub fn new(decoder: Decoder) -> (r: Result<ColumnIter<T>, DecodeError>)
        ensures
            !decoder.holds_rows() ==> r == Err::<ColumnIter<T>, DecodeError>(DecodeError::UnexpectedKind),
            decoder.holds_rows() ==> (r is Ok <==> rows_header_spec(decoder.reader.rest()) is Some
                && (rows_header_spec(decoder.reader.rest())->0).0.columns_count >= 0),
            r is Ok ==> rows_start(r->Ok_0.decoder, r->Ok_0.metadata, r->Ok_0.rows_count, decoder)
                && r->Ok_0.remaining_rows_count == r->Ok_0.rows_count
                && r->Ok_0.remaining_columns_count == r->Ok_0.metadata.columns_count,
    {
        let mut decoder = decoder;
        let metadata = match decoder.metadata() {
            Ok(m) => m,
            Err(e) => return Err(e),
        };
        let rows_count = match read_rows_count(&mut decoder) {
            Ok(n) => n,
            Err(e) => return Err(e),
        };
        if metadata.columns_count < 0 {
            return Err(DecodeError::Malformed);
        }
        let columns = metadata.columns_count as usize;
        Ok(ColumnIter {
            decoder,
            rows_count,
            remaining_rows_count: rows_count,
            remaining_columns_count: columns,
            metadata,
            marker: PhantomData,
        })
    }

    /// Decodes the next cell, moving to the next row when a row is used up.
    pub fn next(&mut self) -> (r: Option<T>)
        ensures
            ({
                let cells = old(self).decoder.reader.rest();
                let more = old(self).remaining_rows_count > 0 && (old(self).remaining_columns_count > 0
                    || (old(self).remaining_rows_count > 1 && old(self).metadata.columns_count > 0));
                &&& !more ==> r is None
                &&& more ==> (r is Some <==> T::value_spec(cells) is Some)
                &&& more && r is Some ==> r->0.model() == (T::value_spec(cells)->0).0
                    && final(self).decoder.reader.rest() == cells.skip((T::value_spec(cells)->0).1)
            }),
    {
        if self.remaining_rows_count == 0 {
            return None;
        }
        if self.remaining_columns_count == 0 {
            self.remaining_rows_count = self.remaining_rows_count - 1;
            if self.remaining_rows_count == 0 || self.metadata.columns_count <= 0 {
                return None;
            }
            self.remaining_columns_count = self.metadata.columns_count as usize;
        }
        self.remaining_columns_count = self.remaining_columns_count - 1;
        T::try_decode(&mut self.decoder.reader)
    }

    pub fn is_empty(&self) -> (r: bool)
        ensures
            r == (self.rows_count == 0),
    {
        self.rows_count == 0
    }

    pub fn rows_count(&self) -> (r: usize)
        ensures
            r == self.rows_count,
    {
        self.rows_count
    }

    pub fn remaining_rows_count(&self) -> (r: usize)
        ensures
            r == self.remaining_rows_count,
    {
        self.remaining_rows_count
    }

    pub fn has_more_pages(&self) -> (r: bool)
        ensures
            r == self.metadata.flags.has_more_pages,
    {
        self.metadata.has_more_pages()
    }
}

} // verus!
