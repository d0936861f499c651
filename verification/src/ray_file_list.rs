//! The whole renaming job: the ordered entries, the timestamp format, the
//! two cached column widths, the renamed-target list, the confirmation
//! table's text, and the ordered old-to-new rename pairs.

use vstd::prelude::*;

use crate::RenameError;
use crate::contains_slash;
use crate::ray_file::{RayFile, split_base, split_ext};
use crate::time_fmt::{chrono_pattern_ok, format_local_now, format_timestamp, timestamp_in_range};
use crate::widths::{
    center_in_width, center_spec, lemma_wide_offset_le_len, pad_right, pad_right_spec, wide_offset,
};

verus! {

/// The largest full display length over `files`, zero for no files.
pub open spec fn max_full_len(files: Seq<RayFile>) -> nat
    decreases files.len(),
{
    if files.len() == 0 {
        0
    } else {
        let rest = max_full_len(files.drop_last());
        let l = files.last().full_len_spec();
        if l > rest {
            l
        } else {
            rest
        }
    }
}

/// The largest extension length over `files`, zero for no files.
pub open spec fn max_ext_len(files: Seq<RayFile>) -> nat
    decreases files.len(),
{
    if files.len() == 0 {
        0
    } else {
        let rest = max_ext_len(files.drop_last());
        let l = files.last().ext().len();
        if l > rest {
            l
        } else {
            rest
        }
    }
}

/// Every entry's full display length is bounded by the maximum.
pub proof fn lemma_max_full_len_bound(files: Seq<RayFile>, i: int)
    requires
        0 <= i < files.len(),
    ensures
        files[i].full_len_spec() <= max_full_len(files),
    decreases files.len(),
{
    if i < files.len() - 1 {
        lemma_max_full_len_bound(files.drop_last(), i);
    }
}

proof fn lemma_max_full_len_take_step(files: Seq<RayFile>, i: int)
    requires
        0 <= i < files.len(),
    ensures
        max_full_len(files.take(i + 1)) == if files[i].full_len_spec() > max_full_len(
            files.take(i),
        ) {
            files[i].full_len_spec()
        } else {
            max_full_len(files.take(i))
        },
{
    assert(files.take(i + 1).drop_last() =~= files.take(i));
    assert(files.take(i + 1).last() == files[i]);
}

proof fn lemma_max_ext_len_take_step(files: Seq<RayFile>, i: int)
    requires
        0 <= i < files.len(),
    ensures
        max_ext_len(files.take(i + 1)) == if files[i].ext().len() > max_ext_len(files.take(i)) {
            files[i].ext().len()
        } else {
            max_ext_len(files.take(i))
        },
{
    assert(files.take(i + 1).drop_last() =~= files.take(i));
    assert(files.take(i + 1).last() == files[i]);
}

/// The renamed list `out` derived from `files` under the base names `bases`:
/// the same number of entries, each carrying the given base name and the
/// extension of the entry it replaces.
pub open spec fn renamed_rel(files: Seq<RayFile>, bases: Seq<Seq<char>>, out: Seq<RayFile>) -> bool {
    &&& out.len() == files.len()
    &&& forall|i: int|
        0 <= i < files.len() ==> (#[trigger] out[i]).base() == bases[i] && out[i].ext()
            == files[i].ext()
}

/// Deriving the renamed list is a pure function of the entries and the base
/// names: two derivations from the same inputs agree entry by entry, and the
/// entries themselves are never changed.
pub proof fn lemma_renamed_list_deterministic(
    files: Seq<RayFile>,
    bases: Seq<Seq<char>>,
    out1: Seq<RayFile>,
    out2: Seq<RayFile>,
)
    requires
        renamed_rel(files, bases, out1),
        renamed_rel(files, bases, out2),
    ensures
        out1.len() == out2.len(),
        forall|i: int|
            0 <= i < out1.len() ==> (#[trigger] out1[i]).base() == out2[i].base() && out1[i].ext()
                == out2[i].ext(),
{
}

/// The new-name column width derived from a sample formatted timestamp of
/// `sample_len` characters and a longest extension of `ext_len` characters:
/// the larger of 3 and `sample_len + 1 + ext_len` (one for the dot), capped
/// at the machine's word.
pub open spec fn output_width_formula(sample_len: nat, ext_len: nat) -> nat {
    let total = sample_len + 1 + ext_len;
    if total > usize::MAX {
        usize::MAX as nat
    } else if total > 3 {
        total
    } else {
        3nat
    }
}

/// True when `w` is the new-name column width that `output_width_formula`
/// yields from some sample length and a longest extension of `ext_len`.
pub open spec fn output_width_possible(w: nat, ext_len: nat) -> bool {
    exists|sample_len: nat| w == output_width_formula(sample_len, ext_len)
}

/// In a built batch both column widths are at least 3, and the old-name
/// column is at least as wide as every entry's full display length.
pub proof fn lemma_column_width_floors(batch: RayFileList, i: int)
    requires
        batch.wf(),
        0 <= i < batch.files().len(),
    ensures
        batch.max_len_input >= 3,
        batch.max_len_output >= 3,
        batch.files()[i].full_len_spec() <= batch.max_len_input,
{
    lemma_max_full_len_bound(batch.files(), i);
}

/// The whole renaming job, immutable once built.
pub struct RayFileList {
    /// The entries, in the order the caller gave them.
    pub file_list: Vec<RayFile>,
    /// The timestamp format pattern applied to each file's modification time.
    pub time_format: String,
    /// Width of the old-name column: at least 3, and at least every entry's
    /// full display length.
    pub max_len_input: usize,
    /// Width of the new-name column: at least 3, sized from a sample
    /// formatted timestamp plus a dot and the longest extension.
    pub max_len_output: usize,
}

impl RayFileList {
    /// The entries.
    pub open spec fn files(self) -> Seq<RayFile> {
        self.file_list@
    }

    /// A built batch: non-empty, every entry well formed, and the two column
    /// widths at their floors and above every entry they must fit.
    pub open spec fn wf(self) -> bool {
        &&& self.files().len() > 0
        &&& forall|i: int| 0 <= i < self.files().len() ==> (#[trigger] self.files()[i]).wf()
        &&& self.max_len_input >= 3
        &&& self.max_len_input as nat >= max_full_len(self.files())
        &&& self.max_len_output >= 3
    }

    /// Builds the batch: one entry per input name, in order, and the two
    /// column widths. The old-name column is exactly the larger of 3 and the
    /// longest full display length. The new-name column is the larger of 3
    /// and a sample formatted current timestamp plus a dot and the longest
    /// extension. A name with a directory separator is reported as
    /// `PathSeparator`; otherwise a pattern chrono rejects, and only such a
    /// pattern, is reported as `InvalidTimeFormat`: on slash-free names and
    /// an accepted pattern the batch is owed.
    pub fn from(input_file_list: &Vec<String>, time_format: String) -> (r: Result<
        RayFileList,
        RenameError,
    >)
        requires
            input_file_list@.len() > 0,
        ensures
            match r {
                Ok(batch) => {
                    &&& batch.wf()
                    &&& chrono_pattern_ok(time_format@)
                    &&& batch.files().len() == input_file_list@.len()
                    &&& forall|i: int|
                        0 <= i < input_file_list@.len() ==> (#[trigger] batch.files()[i]).base()
                            == split_base(input_file_list@[i]@) && batch.files()[i].ext()
                            == split_ext(input_file_list@[i]@)
                    &&& batch.time_format@ == time_format@
                    &&& batch.max_len_input as nat == (if max_full_len(batch.files()) > 3 {
                        max_full_len(batch.files())
                    } else {
                        3nat
                    })
                    &&& (max_ext_len(batch.files()) < usize::MAX ==> batch.max_len_output as nat
                        > max_ext_len(batch.files()))
                    &&& output_width_possible(
                        batch.max_len_output as nat,
                        max_ext_len(batch.files()),
                    )
                    &&& !(exists|i: int|
                        0 <= i < input_file_list@.len() && contains_slash(
                            #[trigger] input_file_list@[i]@,
                        ))
                },
                Err(e) => {
                    &&& (e == RenameError::PathSeparator <==> exists|i: int|
                        0 <= i < input_file_list@.len() && contains_slash(
                            #[trigger] input_file_list@[i]@,
                        ))
                    &&& (e == RenameError::InvalidTimeFormat <==> !(exists|i: int|
                        0 <= i < input_file_list@.len() && contains_slash(
                            #[trigger] input_file_list@[i]@,
                        )) && !chrono_pattern_ok(time_format@))
                    &&& (e == RenameError::PathSeparator || e == RenameError::InvalidTimeFormat)
                },
            },
    {
        let n: usize = input_file_list.len();
        let mut file_list: Vec<RayFile> = Vec::new();
        let mut i: usize = 0;
        while i < n
            invariant
                0 <= i <= n,
                n == input_file_list@.len(),
                file_list@.len() == i,
                forall|j: int|
                    0 <= j < i ==> (#[trigger] file_list@[j]).base() == split_base(
                        input_file_list@[j]@,
                    ) && file_list@[j].ext() == split_ext(input_file_list@[j]@)
                        && file_list@[j].wf(),
                forall|j: int| 0 <= j < i ==> !contains_slash(#[trigger] input_file_list@[j]@),
            decreases n - i,
        {
            match RayFile::from(input_file_list[i].clone()) {
                Ok(f) => {
                    file_list.push(f);
                },
                Err(_) => {
                    return Err(RenameError::PathSeparator);
                },
            }
            i = i + 1;
        }

        let mut max_in: usize = 3;
        let mut i: usize = 0;
        while i < n
            invariant
                0 <= i <= n,
                n == file_list@.len(),
                forall|j: int| 0 <= j < n ==> (#[trigger] file_list@[j]).wf(),
                max_in as nat == (if max_full_len(file_list@.take(i as int)) > 3 {
                    max_full_len(file_list@.take(i as int))
                } else {
                    3nat
                }),
            decreases n - i,
        {
            let l: usize = file_list[i].full_len();
            proof {
                lemma_max_full_len_take_step(file_list@, i as int);
            }
            if l > max_in {
                max_in = l;
            }
            i = i + 1;
        }
        proof {
            assert(file_list@.take(n as int) =~= file_list@);
        }

        let mut max_ext: usize = 0;
        let mut i: usize = 0;
        while i < n
            invariant
                0 <= i <= n,
                n == file_list@.len(),
                max_ext as nat == max_ext_len(file_list@.take(i as int)),
            decreases n - i,
        {
            let l: usize = file_list[i].ext_len();
            proof {
                lemma_max_ext_len_take_step(file_list@, i as int);
            }
            if l > max_ext {
                max_ext = l;
            }
            i = i + 1;
        }
        proof {
            assert(file_list@.take(n as int) =~= file_list@);
        }

        let sample = match format_local_now(time_format.as_str()) {
            Some(s) => s,
            None => {
                return Err(RenameError::InvalidTimeFormat);
            },
        };
        let sample_len: usize = sample.as_str().unicode_len();
        let max_out: usize = if max_ext < usize::MAX - 1 && sample_len <= usize::MAX - 1 - max_ext {
            let total: usize = sample_len + 1 + max_ext;
            if total > 3 {
                total
            } else {
                3
            }
        } else {
            usize::MAX
        };
        proof {
            assert(max_out as nat == output_width_formula(sample_len as nat, max_ext as nat));
            assert(output_width_possible(max_out as nat, max_ext_len(file_list@)));
        }

        proof {
            if file_list@.len() > 0 {
                lemma_max_full_len_bound(file_list@, 0);
            }
        }
        Ok(RayFileList { file_list, time_format, max_len_input: max_in, max_len_output: max_out })
    }

    /// The renamed targets under the given base names: the entry at each
    /// position keeps its extension and takes the base name at the same
    /// position. The stored entries are read, never changed.
    pub fn renamed_list_from_bases(&self, new_bases: &Vec<String>) -> (r: Vec<RayFile>)
        requires
            new_bases@.len() == self.files().len(),
        ensures
            renamed_rel(self.files(), new_bases.deep_view(), r@),
    {
        let n: usize = self.file_list.len();
        let mut out: Vec<RayFile> = Vec::new();
        let mut i: usize = 0;
        while i < n
            invariant
                0 <= i <= n,
                n == self.files().len(),
                new_bases@.len() == n,
                out@.len() == i,
                forall|j: int|
                    0 <= j < i ==> (#[trigger] out@[j]).base() == new_bases@[j]@ && out@[j].ext()
                        == self.files()[j].ext(),
            decreases n - i,
        {
            let f = self.file_list[i].renamed(new_bases[i].clone());
            out.push(f);
            i = i + 1;
        }
        out
    }

    /// The renamed targets: each entry's modification instant, given as
    /// seconds and nanoseconds after the Unix epoch, formatted with the
    /// batch's pattern in the local time zone, becomes the new base name;
    /// extensions are carried over unchanged. `None` exactly when chrono
    /// rejects the pattern (for a non-empty batch) or some instant lies
    /// outside its range: on an accepted pattern and in-range instants the
    /// list is owed.
    pub fn get_renamed_file_list(&self, mod_times: &Vec<(i64, u32)>) -> (r: Option<Vec<RayFile>>)
        requires
            mod_times@.len() == self.files().len(),
        ensures
            match r {
                Some(out) => {
                    &&& out@.len() == self.files().len()
                    &&& forall|i: int|
                        0 <= i < out@.len() ==> (#[trigger] out@[i]).ext() == self.files()[i].ext()
                },
                None => true,
            },
            r is None <==> (self.files().len() > 0 && !chrono_pattern_ok(self.time_format@)) || (
            exists|i: int|
                0 <= i < mod_times@.len() && !timestamp_in_range(
                    (#[trigger] mod_times@[i]).0,
                    mod_times@[i].1,
                )),
    {
        let n: usize = self.file_list.len();
        let mut out: Vec<RayFile> = Vec::new();
        let mut i: usize = 0;
        while i < n
            invariant
                0 <= i <= n,
                n == self.files().len(),
                mod_times@.len() == n,
                out@.len() == i,
                forall|j: int| 0 <= j < i ==> (#[trigger] out@[j]).ext() == self.files()[j].ext(),
                i > 0 ==> chrono_pattern_ok(self.time_format@),
                forall|j: int|
                    0 <= j < i ==> timestamp_in_range(
                        (#[trigger] mod_times@[j]).0,
                        mod_times@[j].1,
                    ),
            decreases n - i,
        {
            let (secs, nsecs): (i64, u32) = mod_times[i];
            let base = match format_timestamp(secs, nsecs, self.time_format.as_str()) {
                Some(b) => b,
                None => {
                    return None;
                },
            };
            let f = self.file_list[i].renamed(base);
            out.push(f);
            i = i + 1;
        }
        Some(out)
    }

    /// The confirmation table's header: the labels `old` and `new`, each
    /// centred in its column, separated by one space.
    pub fn render_renaming_header(&self) -> (r: String)
        ensures
            r@ == center_spec("old"@, self.max_len_input as nat) + " "@ + center_spec(
                "new"@,
                self.max_len_output as nat,
            ),
    {
        let mut out = center_in_width("old", self.max_len_input);
        out.append(" ");
        let right = center_in_width("new", self.max_len_output);
        out.append(right.as_str());
        out
    }

    /// One confirmation row per entry: the old display name left-justified
    /// in the old-name column narrowed by the entry's wide-character offset,
    /// one space, then the new display name unpadded.
    pub fn render_renaming_operations(&self, new_list: &Vec<RayFile>) -> (r: Vec<String>)
        requires
            self.wf(),
            new_list@.len() == self.files().len(),
        ensures
            r@.len() == self.files().len(),
            forall|i: int|
                0 <= i < r@.len() ==> (#[trigger] r@[i])@ == pad_right_spec(
                    self.files()[i].display_spec(),
                    (self.max_len_input - wide_offset(self.files()[i].base())) as nat,
                ) + " "@ + new_list@[i].display_spec(),
    {
        let n: usize = self.file_list.len();
        let mut out: Vec<String> = Vec::new();
        let mut i: usize = 0;
        while i < n
            invariant
                0 <= i <= n,
                self.wf(),
                n == self.files().len(),
                new_list@.len() == n,
                out@.len() == i,
                forall|j: int|
                    0 <= j < i ==> (#[trigger] out@[j])@ == pad_right_spec(
                        self.files()[j].display_spec(),
                        (self.max_len_input - wide_offset(self.files()[j].base())) as nat,
                    ) + " "@ + new_list@[j].display_spec(),
            decreases n - i,
        {
            let offset: usize = self.file_list[i].get_chinese_length_offset_value();
            proof {
                lemma_wide_offset_le_len(self.files()[i as int].base());
                lemma_max_full_len_bound(self.files(), i as int);
            }
            let width: usize = self.max_len_input - offset;
            let disp = self.file_list[i].display_name();
            let mut row = pad_right(disp.as_str(), width);
            row.append(" ");
            let new_disp = new_list[i].display_name();
            row.append(new_disp.as_str());
            out.push(row);
            i = i + 1;
        }
        out
    }

    /// The ordered old-to-new rename pairs, each side as the display name the
    /// filesystem is asked to move from and to.
    pub fn rename_pairs(&self, new_list: &Vec<RayFile>) -> (r: Vec<(String, String)>)
        requires
            new_list@.len() == self.files().len(),
        ensures
            r@.len() == self.files().len(),
            forall|i: int|
                0 <= i < r@.len() ==> (#[trigger] r@[i]).0@ == self.files()[i].display_spec() && r@[
                    i].1@ == new_list@[i].display_spec(),
    {
        let n: usize = self.file_list.len();
        let mut out: Vec<(String, String)> = Vec::new();
        let mut i: usize = 0;
        while i < n
            invariant
                0 <= i <= n,
                n == self.files().len(),
                new_list@.len() == n,
                out@.len() == i,
                forall|j: int|
                    0 <= j < i ==> (#[trigger] out@[j]).0@ == self.files()[j].display_spec()
                        && out@[j].1@ == new_list@[j].display_spec(),
            decreases n - i,
        {
            let old_name = self.file_list[i].display_name();
            let new_name = new_list[i].display_name();
            out.push((old_name, new_name));
            i = i + 1;
        }
        out
    }

    /// The entries' display names, in order.
    pub fn input_display_names(&self) -> (r: Vec<String>)
        ensures
            r@.len() == self.files().len(),
            forall|i: int|
                0 <= i < r@.len() ==> (#[trigger] r@[i])@ == self.files()[i].display_spec(),
    {
        let n: usize = self.file_list.len();
        let mut out: Vec<String> = Vec::new();
        let mut i: usize = 0;
        while i < n
            invariant
                0 <= i <= n,
                n == self.files().len(),
                out@.len() == i,
                forall|j: int|
                    0 <= j < i ==> (#[trigger] out@[j])@ == self.files()[j].display_spec(),
            decreases n - i,
        {
            let name = self.file_list[i].display_name();
            out.push(name);
            i = i + 1;
        }
        out
    }

    /// Width of the old-name column.
    pub fn input_column_width(&self) -> (r: usize)
        ensures
            r == self.max_len_input,
    {
        self.max_len_input
    }

    /// Width of the new-name column.
    pub fn output_column_width(&self) -> (r: usize)
        ensures
            r == self.max_len_output,
    {
        self.max_len_output
    }
}

} // verus!
