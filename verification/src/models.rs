//! The speech models that Murmur knows.

use vstd::prelude::*;

use crate::paths;
use crate::paths::{data_dir, join_path};
use crate::text::same_text;

verus! {

/// What is known of a model, as plain text and numbers.
pub struct ModelView {
    pub id: Seq<char>,
    pub name: Seq<char>,
    pub description: Seq<char>,
    pub repo: Seq<char>,
    pub revision: Seq<char>,
    pub files: Seq<(Seq<char>, u64)>,
}

/// A speech model Murmur knows how to download and run.
pub struct ModelInfo {
    pub id: &'static str,
    pub name: &'static str,
    pub description: &'static str,
    pub repo: &'static str,
    /// Pinned Hugging Face commit, so files can never change underneath us.
    pub revision: &'static str,
    /// (file name, expected size in bytes)
    pub files: Vec<(&'static str, u64)>,
}

/// The names and sizes of files.
pub open spec fn file_views(files: Seq<(&'static str, u64)>) -> Seq<(Seq<char>, u64)> {
    files.map_values(|f: (&'static str, u64)| (f.0@, f.1))
}

impl View for ModelInfo {
    type V = ModelView;

    open spec fn view(&self) -> ModelView {
        ModelView {
            id: self.id@,
            name: self.name@,
            description: self.description@,
            repo: self.repo@,
            revision: self.revision@,
            files: file_views(self.files@),
        }
    }
}

/// The sum of the sizes of files.
pub open spec fn sum_sizes(files: Seq<(Seq<char>, u64)>) -> nat
    decreases files.len(),
{
    if files.len() == 0 {
        0
    } else {
        sum_sizes(files.drop_last()) + files.last().1 as nat
    }
}

/// Every file has exactly the size it should have.
pub open spec fn all_there(files: Seq<(Seq<char>, u64)>, found: Seq<Option<u64>>) -> bool {
    forall|i: int| 0 <= i < files.len() ==> #[trigger] found[i] == Some(files[i].1)
}

/// The sum of a part of the files is no more than that of all.
pub proof fn lemma_sum_prefix(files: Seq<(Seq<char>, u64)>, n: int)
    requires
        0 <= n <= files.len(),
    ensures
        sum_sizes(files.take(n)) <= sum_sizes(files),
    decreases files.len() - n,
{
    if n < files.len() {
        lemma_sum_prefix(files, n + 1);
        assert(files.take(n + 1).drop_last() == files.take(n));
    } else {
        assert(files.take(n) == files);
    }
}

impl ModelInfo {
    /// The directory of the model's files below the data directory.
    pub fn dir_below(&self, data: &Vec<u8>) -> (r: Vec<u8>)
        ensures
            r@ == paths::joined(
                paths::joined(data@, paths::bytes_of("models"@)),
                paths::bytes_of(self@.id),
            ),
    {
        join_path(&join_path(data, "models"), self.id)
    }

    /// The directory of the model's files.
    pub fn dir(&self) -> (r: Vec<u8>)
        ensures
            exists|base: Option<Seq<u8>>|
                r@ == paths::joined(
                    paths::joined(
                        #[trigger] paths::murmur_dir(base, paths::bytes_of("~/.local/share"@)),
                        paths::bytes_of("models"@),
                    ),
                    paths::bytes_of(self@.id),
                ),
    {
        self.dir_below(&data_dir())
    }

    /// How many bytes the model's files have together.
    pub fn total_bytes(&self) -> (r: u64)
        requires
            sum_sizes(self@.files) <= u64::MAX,
        ensures
            r == sum_sizes(self@.files),
    {
        let mut total: u64 = 0;
        let mut i: usize = 0;
        while i < self.files.len()
            invariant
                i <= self.files@.len(),
                sum_sizes(self@.files) <= u64::MAX,
                total == sum_sizes(self@.files.take(i as int)),
            decreases self.files@.len() - i,
        {
            proof {
                lemma_sum_prefix(self@.files, i + 1);
                assert(self@.files.take(i + 1).drop_last() == self@.files.take(i as int));
            }
            total = total + self.files[i].1;
            i = i + 1;
        }
        assert(self@.files.take(i as int) == self@.files);
        total
    }

    /// Whether every file is there with its expected size. `found` holds the
    /// size of each file on disk, `None` where there is none.
    pub fn is_installed(&self, found: &Vec<Option<u64>>) -> (r: bool)
        requires
            found@.len() == self@.files.len(),
        ensures
            r == all_there(self@.files, found@),
    {
        let mut i: usize = 0;
        while i < self.files.len()
            invariant
                found@.len() == self.files@.len(),
                i <= self.files@.len(),
                forall|k: int| 0 <= k < i ==> #[trigger] found@[k] == Some(self@.files[k].1),
            decreases self.files@.len() - i,
        {
            match found[i] {
                Some(size) if size == self.files[i].1 => {},
                _ => {
                    return false;
                },
            }
            i = i + 1;
        }
        true
    }
}

/// The English model.
pub open spec fn parakeet_v2() -> ModelView {
    ModelView {
        id: "parakeet-tdt-0.6b-v2"@,
        name: "Parakeet v2 (English)"@,
        description: "Most accurate for English. Punctuation and capitals included."@,
        repo: "istupakov/parakeet-tdt-0.6b-v2-onnx"@,
        revision: "0bbb45a3365852604aef28b538a8f066f4ccaa85"@,
        files: seq![
            ("encoder-model.int8.onnx"@, 652_184_014),
            ("decoder_joint-model.int8.onnx"@, 8_998_286),
            ("vocab.txt"@, 9_384),
            ("config.json"@, 97),
        ],
    }
}

/// The multilingual model.
pub open spec fn parakeet_v3() -> ModelView {
    ModelView {
        id: "parakeet-tdt-0.6b-v3"@,
        name: "Parakeet v3 (25 languages)"@,
        description: "Multilingual with automatic language detection."@,
        repo: "istupakov/parakeet-tdt-0.6b-v3-onnx"@,
        revision: "8f23f0c03c8761650bdb5b40aaf3e40d2c15f1ce"@,
        files: seq![
            ("encoder-model.int8.onnx"@, 652_183_999),
            ("decoder_joint-model.int8.onnx"@, 18_202_004),
            ("vocab.txt"@, 93_939),
            ("config.json"@, 97),
        ],
    }
}

/// All models, the default first.
pub open spec fn catalogue() -> Seq<ModelView> {
    seq![parakeet_v2(), parakeet_v3()]
}

/// The model with an id, the default if there is none.
pub open spec fn model_named(id: Seq<char>) -> ModelView {
    if id == parakeet_v2().id {
        parakeet_v2()
    } else if id == parakeet_v3().id {
        parakeet_v3()
    } else {
        parakeet_v2()
    }
}

/// The plain views of models.
pub open spec fn model_views(models: Seq<ModelInfo>) -> Seq<ModelView> {
    models.map_values(|m: ModelInfo| m@)
}

fn english_model() -> (r: ModelInfo)
    ensures
        r@ == parakeet_v2(),
{
    let mut files: Vec<(&'static str, u64)> = Vec::new();
    files.push(("encoder-model.int8.onnx", 652_184_014));
    files.push(("decoder_joint-model.int8.onnx", 8_998_286));
    files.push(("vocab.txt", 9_384));
    files.push(("config.json", 97));
    assert(file_views(files@) == parakeet_v2().files);
    ModelInfo {
        id: "parakeet-tdt-0.6b-v2",
        name: "Parakeet v2 (English)",
        description: "Most accurate for English. Punctuation and capitals included.",
        repo: "istupakov/parakeet-tdt-0.6b-v2-onnx",
        revision: "0bbb45a3365852604aef28b538a8f066f4ccaa85",
        files,
    }
}

fn multilingual_model() -> (r: ModelInfo)
    ensures
        r@ == parakeet_v3(),
{
    let mut files: Vec<(&'static str, u64)> = Vec::new();
    files.push(("encoder-model.int8.onnx", 652_183_999));
    files.push(("decoder_joint-model.int8.onnx", 18_202_004));
    files.push(("vocab.txt", 93_939));
    files.push(("config.json", 97));
    assert(file_views(files@) == parakeet_v3().files);
    ModelInfo {
        id: "parakeet-tdt-0.6b-v3",
        name: "Parakeet v3 (25 languages)",
        description: "Multilingual with automatic language detection.",
        repo: "istupakov/parakeet-tdt-0.6b-v3-onnx",
        revision: "8f23f0c03c8761650bdb5b40aaf3e40d2c15f1ce",
        files,
    }
}

/// All models, the default first.
pub fn models() -> (r: Vec<ModelInfo>)
    ensures
        model_views(r@) == catalogue(),
{
    let mut all: Vec<ModelInfo> = Vec::new();
    all.push(english_model());
    all.push(multilingual_model());
    all
}

/// The model with an id, the default if there is none.
pub fn model_by_id(id: &str) -> (r: ModelInfo)
    ensures
        r@ == model_named(id@),
{
    if same_text(id, "parakeet-tdt-0.6b-v2") {
        english_model()
    } else if same_text(id, "parakeet-tdt-0.6b-v3") {
        multilingual_model()
    } else {
        english_model()
    }
}

/// Every model of the catalogue is found by its id.
pub proof fn models_are_found(i: int)
    requires
        0 <= i < catalogue().len(),
    ensures
        model_named(catalogue()[i].id) == catalogue()[i],
{
    reveal_strlit("parakeet-tdt-0.6b-v2");
    reveal_strlit("parakeet-tdt-0.6b-v3");
    assert("parakeet-tdt-0.6b-v2"@[19] == '2');
}

/// An unknown id means the default model.
pub proof fn unknown_id_means_default(id: Seq<char>)
    requires
        forall|i: int| 0 <= i < catalogue().len() ==> (#[trigger] catalogue()[i]).id != id,
    ensures
        model_named(id) == catalogue()[0],
{
}

/// The files of a model of the catalogue fit a byte count.
pub proof fn catalogue_sizes(i: int)
    requires
        0 <= i < catalogue().len(),
    ensures
        0 < sum_sizes(catalogue()[i].files) <= 1_000_000_000,
{
    reveal_with_fuel(sum_sizes, 5);
}

/// The files of a model of the catalogue have plain names: each is a file's,
/// not a path's.
pub proof fn catalogue_names_are_plain(i: int, k: int)
    requires
        0 <= i < catalogue().len(),
        0 <= k < catalogue()[i].files.len(),
    ensures
        ({
            let name = catalogue()[i].files[k].0;
            &&& name.len() > 2
            &&& !name.contains('/')
        }),
{
    reveal_strlit("encoder-model.int8.onnx");
    reveal_strlit("decoder_joint-model.int8.onnx");
    reveal_strlit("vocab.txt");
    reveal_strlit("config.json");
}

/// Sizes add up, file by file.
pub proof fn sizes_add_up(a: Seq<(Seq<char>, u64)>, b: Seq<(Seq<char>, u64)>)
    ensures
        sum_sizes(a + b) == sum_sizes(a) + sum_sizes(b),
        a.len() == 0 ==> sum_sizes(a) == 0,
        a.len() == 1 ==> sum_sizes(a) == a[0].1,
    decreases b.len(),
{
    reveal_with_fuel(sum_sizes, 2);
    if b.len() == 0 {
        assert(a + b =~= a);
    } else {
        sizes_add_up(a, b.drop_last());
        assert((a + b).drop_last() =~= a + b.drop_last());
    }
}

/// A model is found by its id, whatever else the catalogue holds, and its files
/// come from a pinned revision, named by forty hexadecimal digits.
pub proof fn models_are_pinned(i: int, k: int)
    requires
        0 <= i < catalogue().len(),
        0 <= k < 40,
    ensures
        catalogue()[i].revision.len() == 40,
        '0' <= catalogue()[i].revision[k] <= '9' || 'a' <= catalogue()[i].revision[k] <= 'f',
        catalogue()[i].files.len() == 4,
{
    reveal_strlit("0bbb45a3365852604aef28b538a8f066f4ccaa85");
    reveal_strlit("8f23f0c03c8761650bdb5b40aaf3e40d2c15f1ce");
}

/// The models on offer, the English one first: where their files come from, and
/// how large each is.
pub proof fn models_on_offer()
    ensures
        catalogue().len() == 2,
        catalogue()[0].id == "parakeet-tdt-0.6b-v2"@,
        catalogue()[0].repo == "istupakov/parakeet-tdt-0.6b-v2-onnx"@,
        catalogue()[0].revision == "0bbb45a3365852604aef28b538a8f066f4ccaa85"@,
        catalogue()[0].files[0] == ("encoder-model.int8.onnx"@, 652_184_014u64),
        catalogue()[0].files[1] == ("decoder_joint-model.int8.onnx"@, 8_998_286u64),
        catalogue()[0].files[2] == ("vocab.txt"@, 9_384u64),
        catalogue()[0].files[3] == ("config.json"@, 97u64),
        catalogue()[1].id == "parakeet-tdt-0.6b-v3"@,
        catalogue()[1].repo == "istupakov/parakeet-tdt-0.6b-v3-onnx"@,
        catalogue()[1].revision == "8f23f0c03c8761650bdb5b40aaf3e40d2c15f1ce"@,
        catalogue()[1].files[0] == ("encoder-model.int8.onnx"@, 652_183_999u64),
        catalogue()[1].files[1] == ("decoder_joint-model.int8.onnx"@, 18_202_004u64),
        catalogue()[1].files[2] == ("vocab.txt"@, 93_939u64),
        catalogue()[1].files[3] == ("config.json"@, 97u64),
{
}

} // verus!
