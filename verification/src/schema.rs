//! A plain model of a table schema, and the path of a partition.

use crate::actions::{PartitionValue, Scalar};
use crate::text::{append_integer, decimal_text};
use vstd::prelude::*;
use vstd::string::StringExecFns;

verus! {

/// One column of a schema.
#[derive(Clone, Debug, PartialEq, Eq)]
pub struct Field {
    pub name: String,
    /// The name of the column's data type.
    pub data_type: String,
    pub nullable: bool,
}

/// The columns of a table or of a data file, in order.
#[derive(Clone, Debug, PartialEq, Eq)]
pub struct Schema {
    pub fields: Vec<Field>,
}

/// The mathematical content of a column.
pub struct FieldView {
    pub name: Seq<char>,
    pub data_type: Seq<char>,
    pub nullable: bool,
}

impl View for Field {
    type V = FieldView;

    open spec fn view(&self) -> FieldView {
        FieldView { name: self.name@, data_type: self.data_type@, nullable: self.nullable }
    }
}

impl View for Schema {
    type V = Seq<FieldView>;

    open spec fn view(&self) -> Seq<FieldView> {
        Seq::new(self.fields@.len(), |i: int| self.fields@[i]@)
    }
}

/// The names as sequences of characters.
pub open spec fn names_of(columns: Seq<String>) -> Seq<Seq<char>> {
    Seq::new(columns.len(), |i: int| columns[i]@)
}

/// The columns of `fields` whose name is none of `dropped`, in their order.
pub open spec fn without_columns(fields: Seq<FieldView>, dropped: Seq<Seq<char>>) -> Seq<FieldView>
    decreases fields.len(),
{
    if fields.len() == 0 {
        fields
    } else {
        let rest = without_columns(fields.drop_last(), dropped);
        if dropped.contains(fields.last().name) {
            rest
        } else {
            rest.push(fields.last())
        }
    }
}

/// Whether `names` holds `name`.
pub fn contains_name(names: &Vec<String>, name: &String) -> (found: bool)
    ensures
        found == names_of(names@).contains(name@),
{
    let mut i: usize = 0;
    while i < names.len()
        invariant
            i <= names.len(),
            forall|j: int| 0 <= j < i ==> names_of(names@)[j] != name@,
        decreases names.len() - i,
    {
        if names[i] == *name {
            assert(names_of(names@)[i as int] == name@);
            return true;
        }
        i += 1;
    }
    false
}

impl Field {
    /// Whether two columns agree in name, type and nullability.
    pub fn same_as(&self, other: &Field) -> (same: bool)
        ensures
            same == (self@ == other@),
    {
        self.name == other.name && self.data_type == other.data_type && self.nullable
            == other.nullable
    }

    fn copy(&self) -> (copy: Field)
        ensures
            copy == *self,
    {
        Field {
            name: self.name.clone(),
            data_type: self.data_type.clone(),
            nullable: self.nullable,
        }
    }
}

impl Schema {
    /// Whether two schemas hold the same columns in the same order.
    pub fn same_as(&self, other: &Schema) -> (same: bool)
        ensures
            same == (self@ == other@),
    {
        if self.fields.len() != other.fields.len() {
            assert(self@.len() != other@.len());
            return false;
        }
        let mut i: usize = 0;
        while i < self.fields.len()
            invariant
                i <= self.fields.len(),
                self.fields@.len() == other.fields@.len(),
                forall|j: int| 0 <= j < i ==> self@[j] == other@[j],
            decreases self.fields.len() - i,
        {
            if !self.fields[i].same_as(&other.fields[i]) {
                assert(self@[i as int] == self.fields@[i as int]@);
                assert(other@[i as int] == other.fields@[i as int]@);
                return false;
            }
            assert(self@[i as int] == other@[i as int]);
            i += 1;
        }
        assert(self@ =~= other@);
        true
    }

    /// The schema without the given columns.
    pub fn without(&self, dropped: &Vec<String>) -> (kept: Schema)
        ensures
            kept@ == without_columns(self@, names_of(dropped@)),
    {
        let mut fields: Vec<Field> = Vec::new();
        let mut i: usize = 0;
        let ghost all = self@;
        let ghost names = names_of(dropped@);
        proof {
            assert(all.take(0) =~= Seq::<FieldView>::empty());
            assert((Schema { fields })@ =~= without_columns(all.take(0), names));
        }
        while i < self.fields.len()
            invariant
                i <= self.fields.len(),
                all == self@,
                names == names_of(dropped@),
                (Schema { fields })@ == without_columns(all.take(i as int), names),
            decreases self.fields.len() - i,
        {
            let ghost before = (Schema { fields })@;
            proof {
                assert(all.take(i + 1).drop_last() =~= all.take(i as int));
                assert(all.take(i + 1).last() == self.fields@[i as int]@);
            }
            if !contains_name(dropped, &self.fields[i].name) {
                fields.push(self.fields[i].copy());
                proof {
                    assert((Schema { fields })@ =~= before.push(self.fields@[i as int]@));
                }
            }
            i += 1;
        }
        proof {
            assert(all.take(i as int) =~= all);
        }
        Schema { fields }
    }

    /// The text that describes a schema in messages: `name: type` for every
    /// column, separated by commas.
    pub open spec fn description(fields: Seq<FieldView>) -> Seq<char>
        decreases fields.len(),
    {
        if fields.len() == 0 {
            Seq::empty()
        } else if fields.len() == 1 {
            fields[0].name + ": "@ + fields[0].data_type
        } else {
            Schema::description(fields.drop_last()) + ", "@ + fields.last().name + ": "@
                + fields.last().data_type
        }
    }

    /// Describes the schema for a message.
    pub fn describe(&self) -> (text: String)
        ensures
            text@ == Schema::description(self@),
    {
        let mut text = String::new();
        let mut i: usize = 0;
        let ghost all = self@;
        proof {
            assert(all.take(0) =~= Seq::<FieldView>::empty());
        }
        while i < self.fields.len()
            invariant
                i <= self.fields.len(),
                all == self@,
                text@ == Schema::description(all.take(i as int)),
            decreases self.fields.len() - i,
        {
            let ghost before = text@;
            proof {
                assert(all.take(i + 1).drop_last() =~= all.take(i as int));
                assert(all.take(i + 1).last() == self.fields@[i as int]@);
            }
            if i > 0 {
                text.append(", ");
            }
            text.append(self.fields[i].name.as_str());
            text.append(": ");
            text.append(self.fields[i].data_type.as_str());
            proof {
                let f = self.fields@[i as int]@;
                if i == 0 {
                    assert(all.take(1)[0] == f);
                    assert(text@ =~= f.name + ": "@ + f.data_type);
                } else {
                    assert(text@ =~= before + ", "@ + f.name + ": "@ + f.data_type);
                }
            }
            i += 1;
        }
        proof {
            assert(all.take(i as int) =~= all);
        }
        text
    }
}

/// The directory name that stands for a null partition value.
pub open spec fn null_partition_text() -> Seq<char> {
    "__HIVE_DEFAULT_PARTITION__"@
}

/// The text of a partition value in a path.
pub open spec fn scalar_text(value: Scalar) -> Seq<char> {
    match value {
        Scalar::Integer(n) => decimal_text(n as int),
        Scalar::Text(text) => text@,
        Scalar::Boolean(b) => if b {
            "true"@
        } else {
            "false"@
        },
        Scalar::Null => null_partition_text(),
    }
}

/// The hive-style path of a partition: `column=value` for every partition
/// column in order, separated by `/`.
pub open spec fn hive_path(values: Seq<PartitionValue>) -> Seq<char>
    decreases values.len(),
{
    if values.len() == 0 {
        Seq::empty()
    } else if values.len() == 1 {
        values[0].column@ + "="@ + scalar_text(values[0].value)
    } else {
        hive_path(values.drop_last()) + "/"@ + values.last().column@ + "="@ + scalar_text(
            values.last().value,
        )
    }
}

fn append_scalar(out: &mut String, value: &Scalar)
    ensures
        final(out)@ == old(out)@ + scalar_text(*value),
{
    match value {
        Scalar::Integer(n) => append_integer(out, *n),
        Scalar::Text(text) => out.append(text.as_str()),
        Scalar::Boolean(b) => if *b {
            out.append("true")
        } else {
            out.append("false")
        },
        Scalar::Null => out.append("__HIVE_DEFAULT_PARTITION__"),
    }
}

/// Builds the hive-style path of a partition.
pub fn hive_partition_path(values: &Vec<PartitionValue>) -> (path: String)
    ensures
        path@ == hive_path(values@),
{
    let mut path = String::new();
    let mut i: usize = 0;
    proof {
        assert(values@.take(0) =~= Seq::<PartitionValue>::empty());
    }
    while i < values.len()
        invariant
            i <= values.len(),
            path@ == hive_path(values@.take(i as int)),
        decreases values.len() - i,
    {
        let ghost before = path@;
        proof {
            assert(values@.take(i + 1).drop_last() =~= values@.take(i as int));
            assert(values@.take(i + 1).last() == values@[i as int]);
        }
        if i > 0 {
            path.append("/");
        }
        path.append(values[i].column.as_str());
        path.append("=");
        append_scalar(&mut path, &values[i].value);
        proof {
            let v = values@[i as int];
            if i == 0 {
                assert(values@.take(1)[0] == v);
                assert(path@ =~= v.column@ + "="@ + scalar_text(v.value));
            } else {
                assert(path@ =~= before + "/"@ + v.column@ + "="@ + scalar_text(v.value));
            }
        }
        i += 1;
    }
    proof {
        assert(values@.take(i as int) =~= values@);
    }
    path
}

} // verus!
