//! Assembly of the program text handed to the accelerator's compiler.
use vstd::prelude::*;
use crate::types::Config;

verus! {

/// The text of a decimal digit `d < 10`.
pub open spec fn digit_text(d: nat) -> Seq<char> {
    if d == 0 {
        "0"@
    } else if d == 1 {
        "1"@
    } else if d == 2 {
        "2"@
    } else if d == 3 {
        "3"@
    } else if d == 4 {
        "4"@
    } else if d == 5 {
        "5"@
    } else if d == 6 {
        "6"@
    } else if d == 7 {
        "7"@
    } else if d == 8 {
        "8"@
    } else {
        "9"@
    }
}

/// The decimal text of `n`, most significant digit first, without leading zeros.
pub open spec fn decimal(n: nat) -> Seq<char>
    decreases n,
{
    if n < 10 {
        digit_text(n)
    } else {
        decimal(n / 10) + digit_text(n % 10)
    }
}

fn digit_str(d: usize) -> (r: &'static str)
    requires
        d < 10,
    ensures
        r@ == digit_text(d as nat),
{
    if d == 0 {
        "0"
    } else if d == 1 {
        "1"
    } else if d == 2 {
        "2"
    } else if d == 3 {
        "3"
    } else if d == 4 {
        "4"
    } else if d == 5 {
        "5"
    } else if d == 6 {
        "6"
    } else if d == 7 {
        "7"
    } else if d == 8 {
        "8"
    } else {
        "9"
    }
}

/// Appends the decimal text of `n` to `s`.
fn push_decimal(s: &mut String, n: usize)
    ensures
        final(s)@ == old(s)@ + decimal(n as nat),
    decreases n,
{
    if n < 10 {
        s.append(digit_str(n));
    } else {
        push_decimal(s, n / 10);
        s.append(digit_str(n % 10));
        assert(final(s)@ =~= old(s)@ + decimal(n as nat));
    }
}

/// One parameter definition of the preamble: `#define NAME (value)` and a newline.
pub open spec fn define_line(name: Seq<char>, value: nat) -> Seq<char> {
    "#define "@ + name + " ("@ + decimal(value) + ")\n"@
}

/// The size in bits that the kernels are built for.
pub const BIT_SIZE: usize = 24;

/// The parameter definitions that open the program text.
pub open spec fn preamble(c: Config) -> Seq<char> {
    define_line("N"@, c.num_nodes_window as nat) + define_line("K"@, c.k as nat) + define_line(
        "DEGREE_EXPANDER"@,
        c.degree_expander as nat,
    ) + define_line("DEGREE_BUTTERFLY"@, c.degree_butterfly as nat) + define_line(
        "NUM_EXPANDER_LAYERS"@,
        c.num_expander_layers as nat,
    ) + define_line("NUM_BUTTERFLY_LAYER"@, c.num_butterfly_layers as nat) + define_line(
        "BIT_SIZE"@,
        BIT_SIZE as nat,
    )
}

fn push_define(s: &mut String, name: &str, value: usize)
    ensures
        final(s)@ == old(s)@ + define_line(name@, value as nat),
{
    s.append("#define ");
    s.append(name);
    s.append(" (");
    push_decimal(s, value);
    s.append(")\n");
    assert(final(s)@ =~= old(s)@ + define_line(name@, value as nat));
}

/// The parameter definitions of `conf`, as the program's preamble.
pub fn config(conf: Config) -> (r: String)
    ensures
        r@ == preamble(conf),
{
    let mut s = String::new();
    push_define(&mut s, "N", conf.num_nodes_window);
    push_define(&mut s, "K", conf.k as usize);
    push_define(&mut s, "DEGREE_EXPANDER", conf.degree_expander);
    push_define(&mut s, "DEGREE_BUTTERFLY", conf.degree_butterfly);
    push_define(&mut s, "NUM_EXPANDER_LAYERS", conf.num_expander_layers);
    push_define(&mut s, "NUM_BUTTERFLY_LAYER", conf.num_butterfly_layers);
    push_define(&mut s, "BIT_SIZE", BIT_SIZE);
    assert(s@ =~= preamble(conf));
    s
}

/// The texts of `parts` in order, with `sep` between each two.
pub open spec fn joined(parts: Seq<Seq<char>>, sep: Seq<char>) -> Seq<char>
    decreases parts.len(),
{
    if parts.len() == 0 {
        Seq::empty()
    } else if parts.len() == 1 {
        parts[0]
    } else {
        joined(parts.drop_last(), sep) + sep + parts.last()
    }
}

/// Relies on `itertools::join`: each part's text in order, with `sep`
/// between each two, and the empty text for no parts.
#[verifier::external_body]
fn join_texts(parts: &Vec<String>, sep: &str) -> (r: String)
    ensures
        r@ == joined(parts@.map_values(|p: String| p@), sep@),
{
    itertools::join(parts, sep)
}

/// What `ff_cl_gen::field::<Fr>(name)` returns: the field arithmetic source
/// for the scalar field of BLS12-381, under the type name `name`.
pub uninterp spec fn fr_field_source(name: Seq<char>) -> Seq<char>;

/// Relies on `ff_cl_gen::field` for `Fr`: its text depends on `name` alone.
#[verifier::external_body]
fn field_source(name: &str) -> (r: String)
    ensures
        r@ == fr_field_source(name@),
{
    ff_cl_gen::field::<paired::bls12_381::Fr>(name)
}

/// The kernel modules that follow the field arithmetic in the program.
pub struct KernelSources {
    /// The hash primitives.
    pub sha256: String,
    /// Utilities shared by the kernels.
    pub common: String,
    pub mask: String,
    pub expander: String,
    pub butterfly: String,
    pub combine: String,
}

/// The parts of the program text in order.
pub open spec fn program_parts(c: Config, field: Seq<char>, k: KernelSources) -> Seq<Seq<char>> {
    seq![preamble(c), field, k.sha256@, k.common@, k.mask@, k.expander@, k.butterfly@, k.combine@]
}

/// The program text: its parts, each two separated by a newline.
pub open spec fn program_text(c: Config, field: Seq<char>, k: KernelSources) -> Seq<char> {
    joined(program_parts(c, field, k), "\n"@)
}

/// The program for `conf`, with `field` as its field arithmetic.
pub fn assemble_program(conf: Config, field: &str, kernels: &KernelSources) -> (r: String)
    ensures
        r@ == program_text(conf, field@, *kernels),
{
    let mut parts: Vec<String> = Vec::new();
    parts.push(config(conf));
    parts.push(String::from_str(field));
    parts.push(kernels.sha256.clone());
    parts.push(kernels.common.clone());
    parts.push(kernels.mask.clone());
    parts.push(kernels.expander.clone());
    parts.push(kernels.butterfly.clone());
    parts.push(kernels.combine.clone());
    assert(parts@.map_values(|p: String| p@) =~= program_parts(conf, field@, *kernels));
    join_texts(&parts, "\n")
}

/// The program for `conf`: its preamble, the arithmetic of the field `Fr`,
/// and the kernel modules.
pub fn generate_nse_program(conf: Config, kernels: &KernelSources) -> (r: String)
    ensures
        r@ == program_text(conf, fr_field_source("Fr"@), *kernels),
{
    let field = field_source("Fr");
    assemble_program(conf, field.as_str(), kernels)
}

/// The program text opens with the preamble, which holds each parameter's value.
pub proof fn lemma_program_opens_with_preamble(c: Config, field: Seq<char>, k: KernelSources)
    ensures
        program_text(c, field, k).len() >= preamble(c).len(),
        program_text(c, field, k).subrange(0, preamble(c).len() as int) == preamble(c),
{
    let parts = program_parts(c, field, k);
    let sep = "\n"@;
    lemma_joined_prefix(parts, sep);
}

proof fn lemma_joined_prefix(parts: Seq<Seq<char>>, sep: Seq<char>)
    requires
        parts.len() >= 1,
    ensures
        joined(parts, sep).len() >= parts[0].len(),
        joined(parts, sep).subrange(0, parts[0].len() as int) == parts[0],
    decreases parts.len(),
{
    if parts.len() > 1 {
        let rest = parts.drop_last();
        lemma_joined_prefix(rest, sep);
        assert(rest[0] == parts[0]);
        let j = joined(rest, sep);
        assert((j + sep + parts.last()).subrange(0, parts[0].len() as int) =~= j.subrange(
            0,
            parts[0].len() as int,
        ));
    } else {
        assert(joined(parts, sep).subrange(0, parts[0].len() as int) =~= parts[0]);
    }
}

} // verus!
