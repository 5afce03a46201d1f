//! Grouping voyage rows into free companies.
//!
//! The submarine tracker's database hands back one row per submarine,
//! ordered so that rows of the same free company are adjacent. Grouping
//! walks the rows once and opens a new company exactly where the company
//! identifier changes from the previous row.

use vstd::pervasive::unreached;
use vstd::prelude::*;

verus! {

/// One joined row as read from the voyage database: the owning free
/// company's fields and one submarine's fields. The return timestamp is
/// kept raw; the epoch sentinel is interpreted by the classifier, not here.
#[derive(Clone, Debug)]
pub struct SubmarineRow {
    /// The free company identifier the row belongs to.
    pub fc_id: Vec<u8>,
    /// The owning character's name.
    pub character_name: String,
    /// The world the company lives on.
    pub world: String,
    /// The company's tag.
    pub tag: String,
    /// The submarine's name.
    pub sub_name: String,
    /// The submarine's return timestamp, UTC seconds; zero when the
    /// submarine has never been sent out.
    pub return_time: i64,
}

/// One submarine of a company.
#[derive(Clone, Debug)]
pub struct Submarine {
    /// The submarine's name.
    pub name: String,
    /// The submarine's return timestamp, UTC seconds; zero when the
    /// submarine has never been sent out.
    pub return_time: i64,
}

/// One free company with its submarines, as displayed: one heading per
/// company, one line per submarine.
#[derive(Clone, Debug)]
pub struct FreeCompany {
    /// The company identifier.
    pub id: Vec<u8>,
    /// The owning character's name.
    pub character_name: String,
    /// The world the company lives on.
    pub world: String,
    /// The company's tag.
    pub tag: String,
    /// The company's submarines, in row order.
    pub submarines: Vec<Submarine>,
}

/// The mathematical value of a [`SubmarineRow`].
#[verifier::ext_equal]
pub ghost struct SpecSubmarineRow {
    /// The free company identifier.
    pub fc_id: Seq<u8>,
    /// The owning character's name.
    pub character_name: Seq<char>,
    /// The world.
    pub world: Seq<char>,
    /// The tag.
    pub tag: Seq<char>,
    /// The submarine's name.
    pub sub_name: Seq<char>,
    /// The raw return timestamp.
    pub return_time: int,
}

/// The mathematical value of a [`Submarine`].
#[verifier::ext_equal]
pub ghost struct SpecSubmarine {
    /// The submarine's name.
    pub name: Seq<char>,
    /// The raw return timestamp.
    pub return_time: int,
}

/// The mathematical value of a [`FreeCompany`].
#[verifier::ext_equal]
pub ghost struct SpecFreeCompany {
    /// The company identifier.
    pub id: Seq<u8>,
    /// The owning character's name.
    pub character_name: Seq<char>,
    /// The world.
    pub world: Seq<char>,
    /// The tag.
    pub tag: Seq<char>,
    /// The submarines, in row order.
    pub submarines: Seq<SpecSubmarine>,
}

impl View for SubmarineRow {
    type V = SpecSubmarineRow;

    open spec fn view(&self) -> SpecSubmarineRow {
        SpecSubmarineRow {
            fc_id: self.fc_id@,
            character_name: self.character_name@,
            world: self.world@,
            tag: self.tag@,
            sub_name: self.sub_name@,
            return_time: self.return_time as int,
        }
    }
}

impl View for Submarine {
    type V = SpecSubmarine;

    open spec fn view(&self) -> SpecSubmarine {
        SpecSubmarine { name: self.name@, return_time: self.return_time as int }
    }
}

impl View for FreeCompany {
    type V = SpecFreeCompany;

    open spec fn view(&self) -> SpecFreeCompany {
        SpecFreeCompany {
            id: self.id@,
            character_name: self.character_name@,
            world: self.world@,
            tag: self.tag@,
            submarines: self.submarines@.map_values(|s: Submarine| s@),
        }
    }
}

/// The submarine a row describes.
pub open spec fn spec_row_submarine(r: SpecSubmarineRow) -> SpecSubmarine {
    SpecSubmarine { name: r.sub_name, return_time: r.return_time }
}

/// A fresh company holding just the submarine of one row.
pub open spec fn spec_new_company(r: SpecSubmarineRow) -> SpecFreeCompany {
    SpecFreeCompany {
        id: r.fc_id,
        character_name: r.character_name,
        world: r.world,
        tag: r.tag,
        submarines: seq![spec_row_submarine(r)],
    }
}

/// A company with one more submarine.
pub open spec fn spec_with_submarine(fc: SpecFreeCompany, s: SpecSubmarine) -> SpecFreeCompany {
    SpecFreeCompany {
        id: fc.id,
        character_name: fc.character_name,
        world: fc.world,
        tag: fc.tag,
        submarines: fc.submarines.push(s),
    }
}

/// Grouping adjacent rows into companies: a row whose identifier equals the
/// last company's joins it; any other row opens a new company.
pub open spec fn spec_fleets(rows: Seq<SpecSubmarineRow>) -> Seq<SpecFreeCompany>
    decreases rows.len(),
{
    if rows.len() == 0 {
        Seq::<SpecFreeCompany>::empty()
    } else {
        let prev = spec_fleets(rows.drop_last());
        let row = rows.last();
        if prev.len() > 0 && prev.last().id == row.fc_id {
            prev.update(
                prev.len() - 1,
                spec_with_submarine(prev.last(), spec_row_submarine(row)),
            )
        } else {
            prev.push(spec_new_company(row))
        }
    }
}

/// The mathematical values of a sequence of rows.
pub open spec fn view_of_rows(rows: Seq<SubmarineRow>) -> Seq<SpecSubmarineRow> {
    rows.map_values(|r: SubmarineRow| r@)
}

/// The mathematical values of a sequence of companies.
pub open spec fn view_of_fleet(fcs: Seq<FreeCompany>) -> Seq<SpecFreeCompany> {
    fcs.map_values(|fc: FreeCompany| fc@)
}

/// Whether two byte strings hold the same bytes.
fn bytes_eq(a: &Vec<u8>, b: &Vec<u8>) -> (r: bool)
    ensures
        r == (a@ == b@),
{
    if a.len() != b.len() {
        return false;
    }
    let mut i: usize = 0;
    while i < a.len()
        invariant
            i <= a@.len(),
            a@.len() == b@.len(),
            forall|j: int| 0 <= j < i ==> a@[j] == b@[j],
        decreases a@.len() - i,
    {
        if a[i] != b[i] {
            return false;
        }
        i = i + 1;
    }
    proof {
        assert(a@ =~= b@);
    }
    true
}

/// A copy of a byte string.
fn clone_bytes(a: &Vec<u8>) -> (r: Vec<u8>)
    ensures
        r@ == a@,
{
    let mut r: Vec<u8> = Vec::new();
    let mut i: usize = 0;
    while i < a.len()
        invariant
            i <= a@.len(),
            r@ =~= a@.subrange(0, i as int),
        decreases a@.len() - i,
    {
        r.push(a[i]);
        proof {
            assert(r@ =~= a@.subrange(0, i + 1));
        }
        i = i + 1;
    }
    proof {
        assert(r@ =~= a@);
    }
    r
}

/// Group voyage rows into free companies: rows of the same identifier are
/// adjacent in the input, and each run of them becomes one company carrying
/// its submarines in row order.
pub fn group_fleet(rows: &Vec<SubmarineRow>) -> (fcs: Vec<FreeCompany>)
    ensures
        view_of_fleet(fcs@) == spec_fleets(view_of_rows(rows@)),
{
    let mut fcs: Vec<FreeCompany> = Vec::new();
    let mut i: usize = 0;
    proof {
        assert(view_of_rows(rows@.subrange(0, 0)) =~= Seq::<SpecSubmarineRow>::empty());
        assert(view_of_fleet(fcs@) =~= Seq::<SpecFreeCompany>::empty());
    }
    while i < rows.len()
        invariant
            i <= rows@.len(),
            view_of_fleet(fcs@) == spec_fleets(view_of_rows(rows@.subrange(0, i as int))),
        decreases rows@.len() - i,
    {
        let ghost prefix = view_of_rows(rows@.subrange(0, i as int));
        let ghost prefix1 = view_of_rows(rows@.subrange(0, i + 1));
        proof {
            assert(prefix1.drop_last() =~= prefix);
            assert(rows@.subrange(0, i + 1).last() == rows@[i as int]);
            assert(prefix1.last() == rows@[i as int]@);
        }
        let row = &rows[i];
        let sub = Submarine { name: row.sub_name.clone(), return_time: row.return_time };
        let n: usize = fcs.len();
        let join_last = if n == 0 {
            false
        } else {
            bytes_eq(&fcs[n - 1].id, &row.fc_id)
        };
        let ghost prev = view_of_fleet(fcs@);
        if join_last {
            proof {
                assert(prev.last() == fcs@[n as int - 1]@);
            }
            let mut fc = match fcs.pop() {
                Some(fc) => fc,
                None => unreached(),
            };
            fc.submarines.push(sub);
            fcs.push(fc);
            proof {
                assert(fc@.submarines =~= prev.last().submarines.push(
                    spec_row_submarine(rows@[i as int]@),
                ));
                assert(fc@ =~~= spec_with_submarine(
                    prev.last(),
                    spec_row_submarine(rows@[i as int]@),
                ));
                assert(view_of_fleet(fcs@) =~~= spec_fleets(prefix1));
            }
        } else {
            let mut one_sub: Vec<Submarine> = Vec::new();
            one_sub.push(sub);
            let fc = FreeCompany {
                id: clone_bytes(&row.fc_id),
                character_name: row.character_name.clone(),
                world: row.world.clone(),
                tag: row.tag.clone(),
                submarines: one_sub,
            };
            fcs.push(fc);
            proof {
                if prev.len() > 0 {
                    assert(prev.last() == fcs@[n as int - 1]@);
                    assert(prev.last().id != rows@[i as int]@.fc_id);
                }
                assert(fc@.submarines =~= seq![spec_row_submarine(rows@[i as int]@)]);
                assert(fc@ =~~= spec_new_company(rows@[i as int]@));
                assert(view_of_fleet(fcs@) =~~= spec_fleets(prefix1));
            }
        }
        i = i + 1;
    }
    proof {
        assert(rows@.subrange(0, rows@.len() as int) =~= rows@);
    }
    fcs
}

} // verus!
