use crate::errors::ServiceError;
use crate::errors::ServiceResult;
use crate::models::submissions::TestCase;
use crate::models::submissions::TestCaseView;
use crate::text::decimal;
use crate::text::decimal_string;
use digest::Digest;
use hex::ToHex;
use md5::Md5;
use vstd::prelude::*;
use vstd::string::StringExecFns;
use vstd::utf8::encode_utf8;

verus! {

/// The MD5 hash of `data`.
pub uninterp spec fn md5_digest(data: Seq<u8>) -> Seq<u8>;

/// `text` without the white space at its end.
pub uninterp spec fn trimmed_end(text: Seq<char>) -> Seq<char>;

/// The hexadecimal digit, in lower case, for a number below sixteen.
pub open spec fn hex_digit(n: int) -> char {
    if n == 0 {
        '0'
    } else if n == 1 {
        '1'
    } else if n == 2 {
        '2'
    } else if n == 3 {
        '3'
    } else if n == 4 {
        '4'
    } else if n == 5 {
        '5'
    } else if n == 6 {
        '6'
    } else if n == 7 {
        '7'
    } else if n == 8 {
        '8'
    } else if n == 9 {
        '9'
    } else if n == 10 {
        'a'
    } else if n == 11 {
        'b'
    } else if n == 12 {
        'c'
    } else if n == 13 {
        'd'
    } else if n == 14 {
        'e'
    } else {
        'f'
    }
}

/// The bytes in hexadecimal notation: two digits in lower case for each
/// byte, the high half of the byte first.
pub open spec fn hex_lower(data: Seq<u8>) -> Seq<char>
    decreases data.len(),
{
    if data.len() == 0 {
        Seq::empty()
    } else {
        hex_lower(data.drop_last()).push(hex_digit(data.last() as int / 16)).push(
            hex_digit(data.last() as int % 16),
        )
    }
}

/// The MD5 hash, in hexadecimal notation, of a text without the white space
/// at its end, in UTF-8.
pub open spec fn stripped_md5_view(output: Seq<char>) -> Seq<char> {
    hex_lower(md5_digest(encode_utf8(trimmed_end(output))))
}

/// Calls `digest::Digest::digest` of `md5::Md5`. The contract gives the hash
/// of `data` the name `md5_digest`: the hash depends on the data alone.
#[verifier::external_body]
fn md5_hash(data: &[u8]) -> (hash: Vec<u8>)
    ensures
        hash@ == md5_digest(data@),
{
    Md5::digest(data).to_vec()
}

/// Calls `hex::ToHex::encode_hex`. The contract says what the crate
/// documents: each byte becomes two hexadecimal digits in lower case, the
/// high half first.
#[verifier::external_body]
fn hex_encode(data: &Vec<u8>) -> (text: String)
    ensures
        text@ == hex_lower(data@),
{
    data.encode_hex::<String>()
}

/// Calls `str::trim_end`. The contract gives what is left of `text` the name
/// `trimmed_end`: it depends on the text alone.
#[verifier::external_body]
fn trim_end(text: &str) -> (trimmed: &str)
    ensures
        trimmed@ == trimmed_end(text@),
{
    text.trim_end()
}

/// The MD5 hash of `output` without the white space at its end, in
/// hexadecimal notation.
pub fn get_stripped_md5_output(output: &str) -> (text: String)
    ensures
        text@ == stripped_md5_view(output@),
{
    let hash = md5_hash(trim_end(output).as_bytes());
    hex_encode(&hash)
}

/// What the judge servers are told of a test case that is judged by its
/// output.
#[derive(Debug, Clone)]
pub struct NormalTestCaseInfo {
    pub input_name: String,
    pub input_size: i32,
    pub output_name: String,
    pub output_size: i32,
    pub stripped_output_md5: String,
}

/// Mathematical content of a [`NormalTestCaseInfo`].
pub ghost struct NormalTestCaseInfoView {
    pub input_name: Seq<char>,
    pub input_size: i32,
    pub output_name: Seq<char>,
    pub output_size: i32,
    pub stripped_output_md5: Seq<char>,
}

impl View for NormalTestCaseInfo {
    type V = NormalTestCaseInfoView;

    open spec fn view(&self) -> NormalTestCaseInfoView {
        NormalTestCaseInfoView {
            input_name: self.input_name@,
            input_size: self.input_size,
            output_name: self.output_name@,
            output_size: self.output_size,
            stripped_output_md5: self.stripped_output_md5@,
        }
    }
}

impl DeepView for NormalTestCaseInfo {
    type V = NormalTestCaseInfoView;

    open spec fn deep_view(&self) -> NormalTestCaseInfoView {
        self@
    }
}

/// What the judge servers are told of a test case that is judged by a
/// special judge.
#[derive(Debug, Clone)]
pub struct SpjTestCaseInfo {
    pub input_name: String,
    pub input_size: i32,
}

/// Mathematical content of a [`SpjTestCaseInfo`].
pub ghost struct SpjTestCaseInfoView {
    pub input_name: Seq<char>,
    pub input_size: i32,
}

impl View for SpjTestCaseInfo {
    type V = SpjTestCaseInfoView;

    open spec fn view(&self) -> SpjTestCaseInfoView {
        SpjTestCaseInfoView { input_name: self.input_name@, input_size: self.input_size }
    }
}

impl DeepView for SpjTestCaseInfo {
    type V = SpjTestCaseInfoView;

    open spec fn deep_view(&self) -> SpjTestCaseInfoView {
        self@
    }
}

/// The test cases of a problem by their keys, in the order of the cases.
#[derive(Debug)]
pub enum TestCaseTable {
    Normal(Vec<(String, NormalTestCaseInfo)>),
    Spj(Vec<(String, SpjTestCaseInfo)>),
}

/// Mathematical content of a [`TestCaseTable`].
pub ghost enum TestCaseTableView {
    Normal(Seq<(Seq<char>, NormalTestCaseInfoView)>),
    Spj(Seq<(Seq<char>, SpjTestCaseInfoView)>),
}

impl View for TestCaseTable {
    type V = TestCaseTableView;

    open spec fn view(&self) -> TestCaseTableView {
        match self {
            TestCaseTable::Normal(table) => TestCaseTableView::Normal(table.deep_view()),
            TestCaseTable::Spj(table) => TestCaseTableView::Spj(table.deep_view()),
        }
    }
}

/// What the judge servers are told of the test cases of a problem.
#[derive(Debug)]
pub struct TestCasesInfo {
    pub test_case_number: i32,
    pub spj: bool,
    pub test_cases: TestCaseTable,
}

/// Mathematical content of a [`TestCasesInfo`].
pub ghost struct TestCasesInfoView {
    pub test_case_number: i32,
    pub spj: bool,
    pub test_cases: TestCaseTableView,
}

impl View for TestCasesInfo {
    type V = TestCasesInfoView;

    open spec fn view(&self) -> TestCasesInfoView {
        TestCasesInfoView {
            test_case_number: self.test_case_number,
            spj: self.spj,
            test_cases: self.test_cases@,
        }
    }
}

/// Name of the file that holds the input of the test case with the number
/// `id`.
pub open spec fn input_name_view(id: int) -> Seq<char> {
    decimal(id) + ".in"@
}

/// Name of the file that holds the output of the test case with the number
/// `id`.
pub open spec fn output_name_view(id: int) -> Seq<char> {
    decimal(id) + ".out"@
}

/// Size of a text in bytes, in 32 bits.
pub open spec fn size_view(text: Seq<char>) -> i32 {
    (encode_utf8(text).len() as usize) as i32
}

/// Key and description of the test case at `index` of a problem that is
/// judged by its output. The cases are numbered from one.
pub open spec fn normal_test_case_view(index: int, case: TestCaseView) -> (Seq<char>, NormalTestCaseInfoView) {
    (
        decimal(index + 1),
        NormalTestCaseInfoView {
            input_name: input_name_view(index + 1),
            input_size: size_view(case.input),
            output_name: output_name_view(index + 1),
            output_size: size_view(case.output),
            stripped_output_md5: stripped_md5_view(case.output),
        },
    )
}

/// Key and description of the test case at `index` of a problem with a
/// special judge. The files are numbered from one, the keys from zero.
pub open spec fn spj_test_case_view(index: int, case: TestCaseView) -> (Seq<char>, SpjTestCaseInfoView) {
    (
        decimal(index),
        SpjTestCaseInfoView { input_name: input_name_view(index + 1), input_size: size_view(case.input) },
    )
}

/// What the judge servers are told of `cases`.
pub open spec fn test_cases_info_view(cases: Seq<TestCaseView>, is_spj: bool) -> TestCasesInfoView {
    TestCasesInfoView {
        test_case_number: cases.len() as i32,
        spj: is_spj,
        test_cases: if is_spj {
            TestCaseTableView::Spj(Seq::new(cases.len(), |i: int| spj_test_case_view(i, cases[i])))
        } else {
            TestCaseTableView::Normal(Seq::new(cases.len(), |i: int| normal_test_case_view(i, cases[i])))
        },
    }
}

/// The name of the file that holds the input of the test case with the
/// number `id`.
pub fn input_name(id: i32) -> (name: String)
    ensures
        name@ == input_name_view(id as int),
{
    decimal_string(id).concat(".in")
}

/// The name of the file that holds the output of the test case with the
/// number `id`.
pub fn output_name(id: i32) -> (name: String)
    ensures
        name@ == output_name_view(id as int),
{
    decimal_string(id).concat(".out")
}

/// Describes the test cases of a problem judged by its output.
fn prepare_normal_test_cases(cases: &Vec<TestCase>) -> (table: Vec<(String, NormalTestCaseInfo)>)
    requires
        cases.len() <= i32::MAX,
    ensures
        table.deep_view() == Seq::new(
            cases.len() as nat,
            |i: int| normal_test_case_view(i, cases.deep_view()[i]),
        ),
{
    let mut table: Vec<(String, NormalTestCaseInfo)> = Vec::new();
    let mut count: i32 = 0;
    while (count as usize) < cases.len()
        invariant
            0 <= count <= cases.len() <= i32::MAX,
            table.len() == count,
            forall|k: int|
                0 <= k < count ==> (#[trigger] table@[k]).deep_view() == normal_test_case_view(
                    k,
                    cases.deep_view()[k],
                ),
        decreases cases.len() - count,
    {
        let case = &cases[count as usize];
        let id = count + 1;
        let info = NormalTestCaseInfo {
            input_name: input_name(id),
            input_size: case.input.as_str().len() as i32,
            output_name: output_name(id),
            output_size: case.output.as_str().len() as i32,
            stripped_output_md5: get_stripped_md5_output(case.output.as_str()),
        };
        table.push((decimal_string(id), info));
        count += 1;
    }
    assert(table.deep_view() =~= Seq::new(
        cases.len() as nat,
        |i: int| normal_test_case_view(i, cases.deep_view()[i]),
    ));
    table
}

/// Describes the test cases of a problem with a special judge.
fn prepare_spj_test_case(cases: &Vec<TestCase>) -> (table: Vec<(String, SpjTestCaseInfo)>)
    requires
        cases.len() <= i32::MAX,
    ensures
        table.deep_view() == Seq::new(
            cases.len() as nat,
            |i: int| spj_test_case_view(i, cases.deep_view()[i]),
        ),
{
    let mut table: Vec<(String, SpjTestCaseInfo)> = Vec::new();
    let mut count: i32 = 0;
    while (count as usize) < cases.len()
        invariant
            0 <= count <= cases.len() <= i32::MAX,
            table.len() == count,
            forall|k: int|
                0 <= k < count ==> (#[trigger] table@[k]).deep_view() == spj_test_case_view(
                    k,
                    cases.deep_view()[k],
                ),
        decreases cases.len() - count,
    {
        let case = &cases[count as usize];
        let info = SpjTestCaseInfo {
            input_name: input_name(count + 1),
            input_size: case.input.as_str().len() as i32,
        };
        table.push((decimal_string(count), info));
        count += 1;
    }
    assert(table.deep_view() =~= Seq::new(
        cases.len() as nat,
        |i: int| spj_test_case_view(i, cases.deep_view()[i]),
    ));
    table
}

/// Describes the test cases of a problem for the judge servers.
///
/// `cases` holds what was read from the files of the problem, in the order
/// of their numbers; a special judge has no use for the outputs. A problem
/// needs at least one test case: without one the request is a bad request.
pub fn prepare_test_cases(cases: &Vec<TestCase>, is_spj: bool) -> (result: ServiceResult<TestCasesInfo>)
    requires
        cases.len() <= i32::MAX,
    ensures
        match result {
            Ok(info) => cases.len() > 0 && info@ == test_cases_info_view(cases.deep_view(), is_spj),
            Err(ServiceError::BadRequest(hint)) => cases.len() == 0 && hint@
                == "Need at least one test case."@,
            Err(_) => false,
        },
{
    if cases.len() == 0 {
        return Err(ServiceError::BadRequest("Need at least one test case.".to_owned()));
    }
    let test_cases = if is_spj {
        TestCaseTable::Spj(prepare_spj_test_case(cases))
    } else {
        TestCaseTable::Normal(prepare_normal_test_cases(cases))
    };
    Ok(TestCasesInfo { test_case_number: cases.len() as i32, spj: is_spj, test_cases })
}

} // verus!
