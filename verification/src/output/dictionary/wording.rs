//! That the description of a column says what the column's name says.

use vstd::prelude::*;

use crate::output::dictionary::variables;
use crate::text;

verus! {

proof fn has(whole: Seq<char>, part: Seq<char>, i: int)
    requires
        0 <= i,
        i + part.len() <= whole.len(),
        whole.subrange(i, i + part.len()) == part,
    ensures
        text::occurs_in(whole, part),
{
    assert(text::occurs_at(whole, part, i));
}

proof fn ends_in_mwh(column: Seq<char>)
    ensures
        text::ends_in(column, "_mwh"@) ==> column.len() >= 4 && column[column.len() - 1] == 'h' && column[column.len() - 2] == 'w' && column[column.len() - 3] == 'm' && column[column.len() - 4] == '_',
{
    reveal_strlit("_mwh");
    if text::ends_in(column, "_mwh"@) {
        let s = column.subrange(column.len() - 4, column.len() as int);
        assert(s[0] == '_' && s[1] == 'm' && s[2] == 'w' && s[3] == 'h');
    }
}

proof fn ends_in_cost(column: Seq<char>)
    ensures
        text::ends_in(column, "_cost"@) ==> column.len() >= 5 && column[column.len() - 1] == 't' && column[column.len() - 2] == 's' && column[column.len() - 3] == 'o' && column[column.len() - 4] == 'c' && column[column.len() - 5] == '_',
{
    reveal_strlit("_cost");
    if text::ends_in(column, "_cost"@) {
        let s = column.subrange(column.len() - 5, column.len() as int);
        assert(s[0] == '_' && s[1] == 'c' && s[2] == 'o' && s[3] == 's' && s[4] == 't');
    }
}

proof fn ends_in_id(column: Seq<char>)
    ensures
        text::ends_in(column, "_id"@) ==> column.len() >= 3 && column[column.len() - 1] == 'd' && column[column.len() - 2] == 'i' && column[column.len() - 3] == '_',
{
    reveal_strlit("_id");
    if text::ends_in(column, "_id"@) {
        let s = column.subrange(column.len() - 3, column.len() as int);
        assert(s[0] == '_' && s[1] == 'i' && s[2] == 'd');
    }
}

proof fn ends_in_code(column: Seq<char>)
    ensures
        text::ends_in(column, "_code"@) ==> column.len() >= 5 && column[column.len() - 1] == 'e' && column[column.len() - 2] == 'd' && column[column.len() - 3] == 'o' && column[column.len() - 4] == 'c' && column[column.len() - 5] == '_',
{
    reveal_strlit("_code");
    if text::ends_in(column, "_code"@) {
        let s = column.subrange(column.len() - 5, column.len() as int);
        assert(s[0] == '_' && s[1] == 'c' && s[2] == 'o' && s[3] == 'd' && s[4] == 'e');
    }
}

proof fn ends_in_ms(column: Seq<char>)
    ensures
        text::ends_in(column, "_ms"@) ==> column.len() >= 3 && column[column.len() - 1] == 's' && column[column.len() - 2] == 'm' && column[column.len() - 3] == '_',
{
    reveal_strlit("_ms");
    if text::ends_in(column, "_ms"@) {
        let s = column.subrange(column.len() - 3, column.len() as int);
        assert(s[0] == '_' && s[1] == 'm' && s[2] == 's');
    }
}

proof fn ends_in_price(column: Seq<char>)
    ensures
        text::ends_in(column, "_price"@) ==> column.len() >= 6 && column[column.len() - 1] == 'e' && column[column.len() - 2] == 'c' && column[column.len() - 3] == 'i' && column[column.len() - 4] == 'r' && column[column.len() - 5] == 'p' && column[column.len() - 6] == '_',
{
    reveal_strlit("_price");
    if text::ends_in(column, "_price"@) {
        let s = column.subrange(column.len() - 6, column.len() as int);
        assert(s[0] == '_' && s[1] == 'p' && s[2] == 'r' && s[3] == 'i' && s[4] == 'c' && s[5] == 'e');
    }
}

proof fn ends_in_neg_m3s(column: Seq<char>)
    ensures
        text::ends_in(column, "_neg_m3s"@) ==> column.len() >= 8 && column[column.len() - 1] == 's' && column[column.len() - 2] == '3' && column[column.len() - 3] == 'm' && column[column.len() - 4] == '_' && column[column.len() - 5] == 'g' && column[column.len() - 6] == 'e' && column[column.len() - 7] == 'n' && column[column.len() - 8] == '_',
{
    reveal_strlit("_neg_m3s");
    if text::ends_in(column, "_neg_m3s"@) {
        let s = column.subrange(column.len() - 8, column.len() as int);
        assert(s[0] == '_' && s[1] == 'n' && s[2] == 'e' && s[3] == 'g' && s[4] == '_' && s[5] == 'm' && s[6] == '3' && s[7] == 's');
    }
}

proof fn ends_in_pos_m3s(column: Seq<char>)
    ensures
        text::ends_in(column, "_pos_m3s"@) ==> column.len() >= 8 && column[column.len() - 1] == 's' && column[column.len() - 2] == '3' && column[column.len() - 3] == 'm' && column[column.len() - 4] == '_' && column[column.len() - 5] == 's' && column[column.len() - 6] == 'o' && column[column.len() - 7] == 'p' && column[column.len() - 8] == '_',
{
    reveal_strlit("_pos_m3s");
    if text::ends_in(column, "_pos_m3s"@) {
        let s = column.subrange(column.len() - 8, column.len() as int);
        assert(s[0] == '_' && s[1] == 'p' && s[2] == 'o' && s[3] == 's' && s[4] == '_' && s[5] == 'm' && s[6] == '3' && s[7] == 's');
    }
}

proof fn ends_in_initial_hm3(column: Seq<char>)
    ensures
        text::ends_in(column, "_initial_hm3"@) ==> column.len() >= 12 && column[column.len() - 1] == '3' && column[column.len() - 2] == 'm' && column[column.len() - 3] == 'h' && column[column.len() - 4] == '_' && column[column.len() - 5] == 'l' && column[column.len() - 6] == 'a' && column[column.len() - 7] == 'i' && column[column.len() - 8] == 't' && column[column.len() - 9] == 'i' && column[column.len() - 10] == 'n' && column[column.len() - 11] == 'i' && column[column.len() - 12] == '_',
{
    reveal_strlit("_initial_hm3");
    if text::ends_in(column, "_initial_hm3"@) {
        let s = column.subrange(column.len() - 12, column.len() as int);
        assert(s[0] == '_' && s[1] == 'i' && s[2] == 'n' && s[3] == 'i' && s[4] == 't' && s[5] == 'i' && s[6] == 'a' && s[7] == 'l' && s[8] == '_' && s[9] == 'h' && s[10] == 'm' && s[11] == '3');
    }
}

proof fn ends_in_initial_mwh(column: Seq<char>)
    ensures
        text::ends_in(column, "_initial_mwh"@) ==> column.len() >= 12 && column[column.len() - 1] == 'h' && column[column.len() - 2] == 'w' && column[column.len() - 3] == 'm' && column[column.len() - 4] == '_' && column[column.len() - 5] == 'l' && column[column.len() - 6] == 'a' && column[column.len() - 7] == 'i' && column[column.len() - 8] == 't' && column[column.len() - 9] == 'i' && column[column.len() - 10] == 'n' && column[column.len() - 11] == 'i' && column[column.len() - 12] == '_',
{
    reveal_strlit("_initial_mwh");
    if text::ends_in(column, "_initial_mwh"@) {
        let s = column.subrange(column.len() - 12, column.len() as int);
        assert(s[0] == '_' && s[1] == 'i' && s[2] == 'n' && s[3] == 'i' && s[4] == 't' && s[5] == 'i' && s[6] == 'a' && s[7] == 'l' && s[8] == '_' && s[9] == 'm' && s[10] == 'w' && s[11] == 'h');
    }
}

proof fn ends_in_final_hm3(column: Seq<char>)
    ensures
        text::ends_in(column, "_final_hm3"@) ==> column.len() >= 10 && column[column.len() - 1] == '3' && column[column.len() - 2] == 'm' && column[column.len() - 3] == 'h' && column[column.len() - 4] == '_' && column[column.len() - 5] == 'l' && column[column.len() - 6] == 'a' && column[column.len() - 7] == 'n' && column[column.len() - 8] == 'i' && column[column.len() - 9] == 'f' && column[column.len() - 10] == '_',
{
    reveal_strlit("_final_hm3");
    if text::ends_in(column, "_final_hm3"@) {
        let s = column.subrange(column.len() - 10, column.len() as int);
        assert(s[0] == '_' && s[1] == 'f' && s[2] == 'i' && s[3] == 'n' && s[4] == 'a' && s[5] == 'l' && s[6] == '_' && s[7] == 'h' && s[8] == 'm' && s[9] == '3');
    }
}

proof fn ends_in_final_mwh(column: Seq<char>)
    ensures
        text::ends_in(column, "_final_mwh"@) ==> column.len() >= 10 && column[column.len() - 1] == 'h' && column[column.len() - 2] == 'w' && column[column.len() - 3] == 'm' && column[column.len() - 4] == '_' && column[column.len() - 5] == 'l' && column[column.len() - 6] == 'a' && column[column.len() - 7] == 'n' && column[column.len() - 8] == 'i' && column[column.len() - 9] == 'f' && column[column.len() - 10] == '_',
{
    reveal_strlit("_final_mwh");
    if text::ends_in(column, "_final_mwh"@) {
        let s = column.subrange(column.len() - 10, column.len() as int);
        assert(s[0] == '_' && s[1] == 'f' && s[2] == 'i' && s[3] == 'n' && s[4] == 'a' && s[5] == 'l' && s[6] == '_' && s[7] == 'm' && s[8] == 'w' && s[9] == 'h');
    }
}

proof fn ends_in_above_m3s(column: Seq<char>)
    ensures
        text::ends_in(column, "_above_m3s"@) ==> column.len() >= 10 && column[column.len() - 1] == 's' && column[column.len() - 2] == '3' && column[column.len() - 3] == 'm' && column[column.len() - 4] == '_' && column[column.len() - 5] == 'e' && column[column.len() - 6] == 'v' && column[column.len() - 7] == 'o' && column[column.len() - 8] == 'b' && column[column.len() - 9] == 'a' && column[column.len() - 10] == '_',
{
    reveal_strlit("_above_m3s");
    if text::ends_in(column, "_above_m3s"@) {
        let s = column.subrange(column.len() - 10, column.len() as int);
        assert(s[0] == '_' && s[1] == 'a' && s[2] == 'b' && s[3] == 'o' && s[4] == 'v' && s[5] == 'e' && s[6] == '_' && s[7] == 'm' && s[8] == '3' && s[9] == 's');
    }
}

proof fn ends_in_above_cost(column: Seq<char>)
    ensures
        text::ends_in(column, "_above_cost"@) ==> column.len() >= 11 && column[column.len() - 1] == 't' && column[column.len() - 2] == 's' && column[column.len() - 3] == 'o' && column[column.len() - 4] == 'c' && column[column.len() - 5] == '_' && column[column.len() - 6] == 'e' && column[column.len() - 7] == 'v' && column[column.len() - 8] == 'o' && column[column.len() - 9] == 'b' && column[column.len() - 10] == 'a' && column[column.len() - 11] == '_',
{
    reveal_strlit("_above_cost");
    if text::ends_in(column, "_above_cost"@) {
        let s = column.subrange(column.len() - 11, column.len() as int);
        assert(s[0] == '_' && s[1] == 'a' && s[2] == 'b' && s[3] == 'o' && s[4] == 'v' && s[5] == 'e' && s[6] == '_' && s[7] == 'c' && s[8] == 'o' && s[9] == 's' && s[10] == 't');
    }
}

proof fn ends_in_below_m3s(column: Seq<char>)
    ensures
        text::ends_in(column, "_below_m3s"@) ==> column.len() >= 10 && column[column.len() - 1] == 's' && column[column.len() - 2] == '3' && column[column.len() - 3] == 'm' && column[column.len() - 4] == '_' && column[column.len() - 5] == 'w' && column[column.len() - 6] == 'o' && column[column.len() - 7] == 'l' && column[column.len() - 8] == 'e' && column[column.len() - 9] == 'b' && column[column.len() - 10] == '_',
{
    reveal_strlit("_below_m3s");
    if text::ends_in(column, "_below_m3s"@) {
        let s = column.subrange(column.len() - 10, column.len() as int);
        assert(s[0] == '_' && s[1] == 'b' && s[2] == 'e' && s[3] == 'l' && s[4] == 'o' && s[5] == 'w' && s[6] == '_' && s[7] == 'm' && s[8] == '3' && s[9] == 's');
    }
}

proof fn ends_in_below_cost(column: Seq<char>)
    ensures
        text::ends_in(column, "_below_cost"@) ==> column.len() >= 11 && column[column.len() - 1] == 't' && column[column.len() - 2] == 's' && column[column.len() - 3] == 'o' && column[column.len() - 4] == 'c' && column[column.len() - 5] == '_' && column[column.len() - 6] == 'w' && column[column.len() - 7] == 'o' && column[column.len() - 8] == 'l' && column[column.len() - 9] == 'e' && column[column.len() - 10] == 'b' && column[column.len() - 11] == '_',
{
    reveal_strlit("_below_cost");
    if text::ends_in(column, "_below_cost"@) {
        let s = column.subrange(column.len() - 11, column.len() as int);
        assert(s[0] == '_' && s[1] == 'b' && s[2] == 'e' && s[3] == 'l' && s[4] == 'o' && s[5] == 'w' && s[6] == '_' && s[7] == 'c' && s[8] == 'o' && s[9] == 's' && s[10] == 't');
    }
}

proof fn begins_with_cuts_(column: Seq<char>)
    ensures
        text::occurs_at(column, "cuts_"@, 0) ==> column.len() >= 5 && column[0] == 'c' && column[1] == 'u' && column[2] == 't' && column[3] == 's' && column[4] == '_',
{
    reveal_strlit("cuts_");
    if text::occurs_at(column, "cuts_"@, 0) {
        let s = column.subrange(0, 5);
        assert(s[0] == 'c' && s[1] == 'u' && s[2] == 't' && s[3] == 's' && s[4] == '_');
    }
}

proof fn begins_with_lp_(column: Seq<char>)
    ensures
        text::occurs_at(column, "lp_"@, 0) ==> column.len() >= 3 && column[0] == 'l' && column[1] == 'p' && column[2] == '_',
{
    reveal_strlit("lp_");
    if text::occurs_at(column, "lp_"@, 0) {
        let s = column.subrange(0, 3);
        assert(s[0] == 'l' && s[1] == 'p' && s[2] == '_');
    }
}

proof fn begins_with_fwd_(column: Seq<char>)
    ensures
        text::occurs_at(column, "fwd_"@, 0) ==> column.len() >= 4 && column[0] == 'f' && column[1] == 'w' && column[2] == 'd' && column[3] == '_',
{
    reveal_strlit("fwd_");
    if text::occurs_at(column, "fwd_"@, 0) {
        let s = column.subrange(0, 4);
        assert(s[0] == 'f' && s[1] == 'w' && s[2] == 'd' && s[3] == '_');
    }
}

proof fn begins_with_bwd_(column: Seq<char>)
    ensures
        text::occurs_at(column, "bwd_"@, 0) ==> column.len() >= 4 && column[0] == 'b' && column[1] == 'w' && column[2] == 'd' && column[3] == '_',
{
    reveal_strlit("bwd_");
    if text::occurs_at(column, "bwd_"@, 0) {
        let s = column.subrange(0, 4);
        assert(s[0] == 'b' && s[1] == 'w' && s[2] == 'd' && s[3] == '_');
    }
}

proof fn begins_with_forward_(column: Seq<char>)
    ensures
        text::occurs_at(column, "forward_"@, 0) ==> column.len() >= 8 && column[0] == 'f' && column[1] == 'o' && column[2] == 'r' && column[3] == 'w' && column[4] == 'a' && column[5] == 'r' && column[6] == 'd' && column[7] == '_',
{
    reveal_strlit("forward_");
    if text::occurs_at(column, "forward_"@, 0) {
        let s = column.subrange(0, 8);
        assert(s[0] == 'f' && s[1] == 'o' && s[2] == 'r' && s[3] == 'w' && s[4] == 'a' && s[5] == 'r' && s[6] == 'd' && s[7] == '_');
    }
}

proof fn begins_with_backward_(column: Seq<char>)
    ensures
        text::occurs_at(column, "backward_"@, 0) ==> column.len() >= 9 && column[0] == 'b' && column[1] == 'a' && column[2] == 'c' && column[3] == 'k' && column[4] == 'w' && column[5] == 'a' && column[6] == 'r' && column[7] == 'd' && column[8] == '_',
{
    reveal_strlit("backward_");
    if text::occurs_at(column, "backward_"@, 0) {
        let s = column.subrange(0, 9);
        assert(s[0] == 'b' && s[1] == 'a' && s[2] == 'c' && s[3] == 'k' && s[4] == 'w' && s[5] == 'a' && s[6] == 'r' && s[7] == 'd' && s[8] == '_');
    }
}

proof fn begins_with_evaporation_(column: Seq<char>)
    ensures
        text::occurs_at(column, "evaporation_"@, 0) ==> column.len() >= 12 && column[0] == 'e' && column[1] == 'v' && column[2] == 'a' && column[3] == 'p' && column[4] == 'o' && column[5] == 'r' && column[6] == 'a' && column[7] == 't' && column[8] == 'i' && column[9] == 'o' && column[10] == 'n' && column[11] == '_',
{
    reveal_strlit("evaporation_");
    if text::occurs_at(column, "evaporation_"@, 0) {
        let s = column.subrange(0, 12);
        assert(s[0] == 'e' && s[1] == 'v' && s[2] == 'a' && s[3] == 'p' && s[4] == 'o' && s[5] == 'r' && s[6] == 'a' && s[7] == 't' && s[8] == 'i' && s[9] == 'o' && s[10] == 'n' && s[11] == '_');
    }
}

proof fn begins_with_turbined_(column: Seq<char>)
    ensures
        text::occurs_at(column, "turbined_"@, 0) ==> column.len() >= 9 && column[0] == 't' && column[1] == 'u' && column[2] == 'r' && column[3] == 'b' && column[4] == 'i' && column[5] == 'n' && column[6] == 'e' && column[7] == 'd' && column[8] == '_',
{
    reveal_strlit("turbined_");
    if text::occurs_at(column, "turbined_"@, 0) {
        let s = column.subrange(0, 9);
        assert(s[0] == 't' && s[1] == 'u' && s[2] == 'r' && s[3] == 'b' && s[4] == 'i' && s[5] == 'n' && s[6] == 'e' && s[7] == 'd' && s[8] == '_');
    }
}

proof fn begins_with_outflow_(column: Seq<char>)
    ensures
        text::occurs_at(column, "outflow_"@, 0) ==> column.len() >= 8 && column[0] == 'o' && column[1] == 'u' && column[2] == 't' && column[3] == 'f' && column[4] == 'l' && column[5] == 'o' && column[6] == 'w' && column[7] == '_',
{
    reveal_strlit("outflow_");
    if text::occurs_at(column, "outflow_"@, 0) {
        let s = column.subrange(0, 8);
        assert(s[0] == 'o' && s[1] == 'u' && s[2] == 't' && s[3] == 'f' && s[4] == 'l' && s[5] == 'o' && s[6] == 'w' && s[7] == '_');
    }
}

proof fn begins_with_curtailment_(column: Seq<char>)
    ensures
        text::occurs_at(column, "curtailment_"@, 0) ==> column.len() >= 12 && column[0] == 'c' && column[1] == 'u' && column[2] == 'r' && column[3] == 't' && column[4] == 'a' && column[5] == 'i' && column[6] == 'l' && column[7] == 'm' && column[8] == 'e' && column[9] == 'n' && column[10] == 't' && column[11] == '_',
{
    reveal_strlit("curtailment_");
    if text::occurs_at(column, "curtailment_"@, 0) {
        let s = column.subrange(0, 12);
        assert(s[0] == 'c' && s[1] == 'u' && s[2] == 'r' && s[3] == 't' && s[4] == 'a' && s[5] == 'i' && s[6] == 'l' && s[7] == 'm' && s[8] == 'e' && s[9] == 'n' && s[10] == 't' && s[11] == '_');
    }
}

proof fn begins_with_deficit_(column: Seq<char>)
    ensures
        text::occurs_at(column, "deficit_"@, 0) ==> column.len() >= 8 && column[0] == 'd' && column[1] == 'e' && column[2] == 'f' && column[3] == 'i' && column[4] == 'c' && column[5] == 'i' && column[6] == 't' && column[7] == '_',
{
    reveal_strlit("deficit_");
    if text::occurs_at(column, "deficit_"@, 0) {
        let s = column.subrange(0, 8);
        assert(s[0] == 'd' && s[1] == 'e' && s[2] == 'f' && s[3] == 'i' && s[4] == 'c' && s[5] == 'i' && s[6] == 't' && s[7] == '_');
    }
}

proof fn begins_with_load_(column: Seq<char>)
    ensures
        text::occurs_at(column, "load_"@, 0) ==> column.len() >= 5 && column[0] == 'l' && column[1] == 'o' && column[2] == 'a' && column[3] == 'd' && column[4] == '_',
{
    reveal_strlit("load_");
    if text::occurs_at(column, "load_"@, 0) {
        let s = column.subrange(0, 5);
        assert(s[0] == 'l' && s[1] == 'o' && s[2] == 'a' && s[3] == 'd' && s[4] == '_');
    }
}

proof fn begins_with_losses_(column: Seq<char>)
    ensures
        text::occurs_at(column, "losses_"@, 0) ==> column.len() >= 7 && column[0] == 'l' && column[1] == 'o' && column[2] == 's' && column[3] == 's' && column[4] == 'e' && column[5] == 's' && column[6] == '_',
{
    reveal_strlit("losses_");
    if text::occurs_at(column, "losses_"@, 0) {
        let s = column.subrange(0, 7);
        assert(s[0] == 'l' && s[1] == 'o' && s[2] == 's' && s[3] == 's' && s[4] == 'e' && s[5] == 's' && s[6] == '_');
    }
}

proof fn begins_with_net_flow_(column: Seq<char>)
    ensures
        text::occurs_at(column, "net_flow_"@, 0) ==> column.len() >= 9 && column[0] == 'n' && column[1] == 'e' && column[2] == 't' && column[3] == '_' && column[4] == 'f' && column[5] == 'l' && column[6] == 'o' && column[7] == 'w' && column[8] == '_',
{
    reveal_strlit("net_flow_");
    if text::occurs_at(column, "net_flow_"@, 0) {
        let s = column.subrange(0, 9);
        assert(s[0] == 'n' && s[1] == 'e' && s[2] == 't' && s[3] == '_' && s[4] == 'f' && s[5] == 'l' && s[6] == 'o' && s[7] == 'w' && s[8] == '_');
    }
}

proof fn begins_with_storage_(column: Seq<char>)
    ensures
        text::occurs_at(column, "storage_"@, 0) ==> column.len() >= 8 && column[0] == 's' && column[1] == 't' && column[2] == 'o' && column[3] == 'r' && column[4] == 'a' && column[5] == 'g' && column[6] == 'e' && column[7] == '_',
{
    reveal_strlit("storage_");
    if text::occurs_at(column, "storage_"@, 0) {
        let s = column.subrange(0, 8);
        assert(s[0] == 's' && s[1] == 't' && s[2] == 'o' && s[3] == 'r' && s[4] == 'a' && s[5] == 'g' && s[6] == 'e' && s[7] == '_');
    }
}

proof fn begins_with_stored_energy_(column: Seq<char>)
    ensures
        text::occurs_at(column, "stored_energy_"@, 0) ==> column.len() >= 14 && column[0] == 's' && column[1] == 't' && column[2] == 'o' && column[3] == 'r' && column[4] == 'e' && column[5] == 'd' && column[6] == '_' && column[7] == 'e' && column[8] == 'n' && column[9] == 'e' && column[10] == 'r' && column[11] == 'g' && column[12] == 'y' && column[13] == '_',
{
    reveal_strlit("stored_energy_");
    if text::occurs_at(column, "stored_energy_"@, 0) {
        let s = column.subrange(0, 14);
        assert(s[0] == 's' && s[1] == 't' && s[2] == 'o' && s[3] == 'r' && s[4] == 'e' && s[5] == 'd' && s[6] == '_' && s[7] == 'e' && s[8] == 'n' && s[9] == 'e' && s[10] == 'r' && s[11] == 'g' && s[12] == 'y' && s[13] == '_');
    }
}

proof fn begins_with_spillage_(column: Seq<char>)
    ensures
        text::occurs_at(column, "spillage_"@, 0) ==> column.len() >= 9 && column[0] == 's' && column[1] == 'p' && column[2] == 'i' && column[3] == 'l' && column[4] == 'l' && column[5] == 'a' && column[6] == 'g' && column[7] == 'e' && column[8] == '_',
{
    reveal_strlit("spillage_");
    if text::occurs_at(column, "spillage_"@, 0) {
        let s = column.subrange(0, 9);
        assert(s[0] == 's' && s[1] == 'p' && s[2] == 'i' && s[3] == 'l' && s[4] == 'l' && s[5] == 'a' && s[6] == 'g' && s[7] == 'e' && s[8] == '_');
    }
}

proof fn begins_with_pumping_(column: Seq<char>)
    ensures
        text::occurs_at(column, "pumping_"@, 0) ==> column.len() >= 8 && column[0] == 'p' && column[1] == 'u' && column[2] == 'm' && column[3] == 'p' && column[4] == 'i' && column[5] == 'n' && column[6] == 'g' && column[7] == '_',
{
    reveal_strlit("pumping_");
    if text::occurs_at(column, "pumping_"@, 0) {
        let s = column.subrange(0, 8);
        assert(s[0] == 'p' && s[1] == 'u' && s[2] == 'm' && s[3] == 'p' && s[4] == 'i' && s[5] == 'n' && s[6] == 'g' && s[7] == '_');
    }
}

proof fn begins_with_pumped_(column: Seq<char>)
    ensures
        text::occurs_at(column, "pumped_"@, 0) ==> column.len() >= 7 && column[0] == 'p' && column[1] == 'u' && column[2] == 'm' && column[3] == 'p' && column[4] == 'e' && column[5] == 'd' && column[6] == '_',
{
    reveal_strlit("pumped_");
    if text::occurs_at(column, "pumped_"@, 0) {
        let s = column.subrange(0, 7);
        assert(s[0] == 'p' && s[1] == 'u' && s[2] == 'm' && s[3] == 'p' && s[4] == 'e' && s[5] == 'd' && s[6] == '_');
    }
}

proof fn begins_with_contract_(column: Seq<char>)
    ensures
        text::occurs_at(column, "contract_"@, 0) ==> column.len() >= 9 && column[0] == 'c' && column[1] == 'o' && column[2] == 'n' && column[3] == 't' && column[4] == 'r' && column[5] == 'a' && column[6] == 'c' && column[7] == 't' && column[8] == '_',
{
    reveal_strlit("contract_");
    if text::occurs_at(column, "contract_"@, 0) {
        let s = column.subrange(0, 9);
        assert(s[0] == 'c' && s[1] == 'o' && s[2] == 'n' && s[3] == 't' && s[4] == 'r' && s[5] == 'a' && s[6] == 'c' && s[7] == 't' && s[8] == '_');
    }
}

proof fn begins_with_thermal_(column: Seq<char>)
    ensures
        text::occurs_at(column, "thermal_"@, 0) ==> column.len() >= 8 && column[0] == 't' && column[1] == 'h' && column[2] == 'e' && column[3] == 'r' && column[4] == 'm' && column[5] == 'a' && column[6] == 'l' && column[7] == '_',
{
    reveal_strlit("thermal_");
    if text::occurs_at(column, "thermal_"@, 0) {
        let s = column.subrange(0, 8);
        assert(s[0] == 't' && s[1] == 'h' && s[2] == 'e' && s[3] == 'r' && s[4] == 'm' && s[5] == 'a' && s[6] == 'l' && s[7] == '_');
    }
}

proof fn begins_with_generation_(column: Seq<char>)
    ensures
        text::occurs_at(column, "generation_"@, 0) ==> column.len() >= 11 && column[0] == 'g' && column[1] == 'e' && column[2] == 'n' && column[3] == 'e' && column[4] == 'r' && column[5] == 'a' && column[6] == 't' && column[7] == 'i' && column[8] == 'o' && column[9] == 'n' && column[10] == '_',
{
    reveal_strlit("generation_");
    if text::occurs_at(column, "generation_"@, 0) {
        let s = column.subrange(0, 11);
        assert(s[0] == 'g' && s[1] == 'e' && s[2] == 'n' && s[3] == 'e' && s[4] == 'r' && s[5] == 'a' && s[6] == 't' && s[7] == 'i' && s[8] == 'o' && s[9] == 'n' && s[10] == '_');
    }
}

proof fn begins_with_excess_(column: Seq<char>)
    ensures
        text::occurs_at(column, "excess_"@, 0) ==> column.len() >= 7 && column[0] == 'e' && column[1] == 'x' && column[2] == 'c' && column[3] == 'e' && column[4] == 's' && column[5] == 's' && column[6] == '_',
{
    reveal_strlit("excess_");
    if text::occurs_at(column, "excess_"@, 0) {
        let s = column.subrange(0, 7);
        assert(s[0] == 'e' && s[1] == 'x' && s[2] == 'c' && s[3] == 'e' && s[4] == 's' && s[5] == 's' && s[6] == '_');
    }
}

proof fn begins_with_exchange_(column: Seq<char>)
    ensures
        text::occurs_at(column, "exchange_"@, 0) ==> column.len() >= 9 && column[0] == 'e' && column[1] == 'x' && column[2] == 'c' && column[3] == 'h' && column[4] == 'a' && column[5] == 'n' && column[6] == 'g' && column[7] == 'e' && column[8] == '_',
{
    reveal_strlit("exchange_");
    if text::occurs_at(column, "exchange_"@, 0) {
        let s = column.subrange(0, 9);
        assert(s[0] == 'e' && s[1] == 'x' && s[2] == 'c' && s[3] == 'h' && s[4] == 'a' && s[5] == 'n' && s[6] == 'g' && s[7] == 'e' && s[8] == '_');
    }
}

proof fn begins_with_hydro_(column: Seq<char>)
    ensures
        text::occurs_at(column, "hydro_"@, 0) ==> column.len() >= 6 && column[0] == 'h' && column[1] == 'y' && column[2] == 'd' && column[3] == 'r' && column[4] == 'o' && column[5] == '_',
{
    reveal_strlit("hydro_");
    if text::occurs_at(column, "hydro_"@, 0) {
        let s = column.subrange(0, 6);
        assert(s[0] == 'h' && s[1] == 'y' && s[2] == 'd' && s[3] == 'r' && s[4] == 'o' && s[5] == '_');
    }
}

proof fn begins_with_inflow_(column: Seq<char>)
    ensures
        text::occurs_at(column, "inflow_"@, 0) ==> column.len() >= 7 && column[0] == 'i' && column[1] == 'n' && column[2] == 'f' && column[3] == 'l' && column[4] == 'o' && column[5] == 'w' && column[6] == '_',
{
    reveal_strlit("inflow_");
    if text::occurs_at(column, "inflow_"@, 0) {
        let s = column.subrange(0, 7);
        assert(s[0] == 'i' && s[1] == 'n' && s[2] == 'f' && s[3] == 'l' && s[4] == 'o' && s[5] == 'w' && s[6] == '_');
    }
}

proof fn begins_with_withdrawal_(column: Seq<char>)
    ensures
        text::occurs_at(column, "withdrawal_"@, 0) ==> column.len() >= 11 && column[0] == 'w' && column[1] == 'i' && column[2] == 't' && column[3] == 'h' && column[4] == 'd' && column[5] == 'r' && column[6] == 'a' && column[7] == 'w' && column[8] == 'a' && column[9] == 'l' && column[10] == '_',
{
    reveal_strlit("withdrawal_");
    if text::occurs_at(column, "withdrawal_"@, 0) {
        let s = column.subrange(0, 11);
        assert(s[0] == 'w' && s[1] == 'i' && s[2] == 't' && s[3] == 'h' && s[4] == 'd' && s[5] == 'r' && s[6] == 'a' && s[7] == 'w' && s[8] == 'a' && s[9] == 'l' && s[10] == '_');
    }
}

proof fn begins_with_water_withdrawal_(column: Seq<char>)
    ensures
        text::occurs_at(column, "water_withdrawal_"@, 0) ==> column.len() >= 17 && column[0] == 'w' && column[1] == 'a' && column[2] == 't' && column[3] == 'e' && column[4] == 'r' && column[5] == '_' && column[6] == 'w' && column[7] == 'i' && column[8] == 't' && column[9] == 'h' && column[10] == 'd' && column[11] == 'r' && column[12] == 'a' && column[13] == 'w' && column[14] == 'a' && column[15] == 'l' && column[16] == '_',
{
    reveal_strlit("water_withdrawal_");
    if text::occurs_at(column, "water_withdrawal_"@, 0) {
        let s = column.subrange(0, 17);
        assert(s[0] == 'w' && s[1] == 'a' && s[2] == 't' && s[3] == 'e' && s[4] == 'r' && s[5] == '_' && s[6] == 'w' && s[7] == 'i' && s[8] == 't' && s[9] == 'h' && s[10] == 'd' && s[11] == 'r' && s[12] == 'a' && s[13] == 'w' && s[14] == 'a' && s[15] == 'l' && s[16] == '_');
    }
}

proof fn begins_with_incremental_(column: Seq<char>)
    ensures
        text::occurs_at(column, "incremental_"@, 0) ==> column.len() >= 12 && column[0] == 'i' && column[1] == 'n' && column[2] == 'c' && column[3] == 'r' && column[4] == 'e' && column[5] == 'm' && column[6] == 'e' && column[7] == 'n' && column[8] == 't' && column[9] == 'a' && column[10] == 'l' && column[11] == '_',
{
    reveal_strlit("incremental_");
    if text::occurs_at(column, "incremental_"@, 0) {
        let s = column.subrange(0, 12);
        assert(s[0] == 'i' && s[1] == 'n' && s[2] == 'c' && s[3] == 'r' && s[4] == 'e' && s[5] == 'm' && s[6] == 'e' && s[7] == 'n' && s[8] == 't' && s[9] == 'a' && s[10] == 'l' && s[11] == '_');
    }
}

proof fn begins_with_diverted_(column: Seq<char>)
    ensures
        text::occurs_at(column, "diverted_"@, 0) ==> column.len() >= 9 && column[0] == 'd' && column[1] == 'i' && column[2] == 'v' && column[3] == 'e' && column[4] == 'r' && column[5] == 't' && column[6] == 'e' && column[7] == 'd' && column[8] == '_',
{
    reveal_strlit("diverted_");
    if text::occurs_at(column, "diverted_"@, 0) {
        let s = column.subrange(0, 9);
        assert(s[0] == 'd' && s[1] == 'i' && s[2] == 'v' && s[3] == 'e' && s[4] == 'r' && s[5] == 't' && s[6] == 'e' && s[7] == 'd' && s[8] == '_');
    }
}

proof fn begins_with_anticipated_(column: Seq<char>)
    ensures
        text::occurs_at(column, "anticipated_"@, 0) ==> column.len() >= 12 && column[0] == 'a' && column[1] == 'n' && column[2] == 't' && column[3] == 'i' && column[4] == 'c' && column[5] == 'i' && column[6] == 'p' && column[7] == 'a' && column[8] == 't' && column[9] == 'e' && column[10] == 'd' && column[11] == '_',
{
    reveal_strlit("anticipated_");
    if text::occurs_at(column, "anticipated_"@, 0) {
        let s = column.subrange(0, 12);
        assert(s[0] == 'a' && s[1] == 'n' && s[2] == 't' && s[3] == 'i' && s[4] == 'c' && s[5] == 'i' && s[6] == 'p' && s[7] == 'a' && s[8] == 't' && s[9] == 'e' && s[10] == 'd' && s[11] == '_');
    }
}

proof fn begins_with_direct_(column: Seq<char>)
    ensures
        text::occurs_at(column, "direct_"@, 0) ==> column.len() >= 7 && column[0] == 'd' && column[1] == 'i' && column[2] == 'r' && column[3] == 'e' && column[4] == 'c' && column[5] == 't' && column[6] == '_',
{
    reveal_strlit("direct_");
    if text::occurs_at(column, "direct_"@, 0) {
        let s = column.subrange(0, 7);
        assert(s[0] == 'd' && s[1] == 'i' && s[2] == 'r' && s[3] == 'e' && s[4] == 'c' && s[5] == 't' && s[6] == '_');
    }
}

proof fn begins_with_reverse_(column: Seq<char>)
    ensures
        text::occurs_at(column, "reverse_"@, 0) ==> column.len() >= 8 && column[0] == 'r' && column[1] == 'e' && column[2] == 'v' && column[3] == 'e' && column[4] == 'r' && column[5] == 's' && column[6] == 'e' && column[7] == '_',
{
    reveal_strlit("reverse_");
    if text::occurs_at(column, "reverse_"@, 0) {
        let s = column.subrange(0, 8);
        assert(s[0] == 'r' && s[1] == 'e' && s[2] == 'v' && s[3] == 'e' && s[4] == 'r' && s[5] == 's' && s[6] == 'e' && s[7] == '_');
    }
}

proof fn begins_with_time_(column: Seq<char>)
    ensures
        text::occurs_at(column, "time_"@, 0) ==> column.len() >= 5 && column[0] == 't' && column[1] == 'i' && column[2] == 'm' && column[3] == 'e' && column[4] == '_',
{
    reveal_strlit("time_");
    if text::occurs_at(column, "time_"@, 0) {
        let s = column.subrange(0, 5);
        assert(s[0] == 't' && s[1] == 'i' && s[2] == 'm' && s[3] == 'e' && s[4] == '_');
    }
}

proof fn begins_with_upper_bound_(column: Seq<char>)
    ensures
        text::occurs_at(column, "upper_bound_"@, 0) ==> column.len() >= 12 && column[0] == 'u' && column[1] == 'p' && column[2] == 'p' && column[3] == 'e' && column[4] == 'r' && column[5] == '_' && column[6] == 'b' && column[7] == 'o' && column[8] == 'u' && column[9] == 'n' && column[10] == 'd' && column[11] == '_',
{
    reveal_strlit("upper_bound_");
    if text::occurs_at(column, "upper_bound_"@, 0) {
        let s = column.subrange(0, 12);
        assert(s[0] == 'u' && s[1] == 'p' && s[2] == 'p' && s[3] == 'e' && s[4] == 'r' && s[5] == '_' && s[6] == 'b' && s[7] == 'o' && s[8] == 'u' && s[9] == 'n' && s[10] == 'd' && s[11] == '_');
    }
}

proof fn begins_with_lower_bound(column: Seq<char>)
    ensures
        text::occurs_at(column, "lower_bound"@, 0) ==> column.len() >= 11 && column[0] == 'l' && column[1] == 'o' && column[2] == 'w' && column[3] == 'e' && column[4] == 'r' && column[5] == '_' && column[6] == 'b' && column[7] == 'o' && column[8] == 'u' && column[9] == 'n' && column[10] == 'd',
{
    reveal_strlit("lower_bound");
    if text::occurs_at(column, "lower_bound"@, 0) {
        let s = column.subrange(0, 11);
        assert(s[0] == 'l' && s[1] == 'o' && s[2] == 'w' && s[3] == 'e' && s[4] == 'r' && s[5] == '_' && s[6] == 'b' && s[7] == 'o' && s[8] == 'u' && s[9] == 'n' && s[10] == 'd');
    }
}

proof fn begins_with_generic_(column: Seq<char>)
    ensures
        text::occurs_at(column, "generic_"@, 0) ==> column.len() >= 8 && column[0] == 'g' && column[1] == 'e' && column[2] == 'n' && column[3] == 'e' && column[4] == 'r' && column[5] == 'i' && column[6] == 'c' && column[7] == '_',
{
    reveal_strlit("generic_");
    if text::occurs_at(column, "generic_"@, 0) {
        let s = column.subrange(0, 8);
        assert(s[0] == 'g' && s[1] == 'e' && s[2] == 'n' && s[3] == 'e' && s[4] == 'r' && s[5] == 'i' && s[6] == 'c' && s[7] == '_');
    }
}

proof fn begins_with_filling_target_(column: Seq<char>)
    ensures
        text::occurs_at(column, "filling_target_"@, 0) ==> column.len() >= 15 && column[0] == 'f' && column[1] == 'i' && column[2] == 'l' && column[3] == 'l' && column[4] == 'i' && column[5] == 'n' && column[6] == 'g' && column[7] == '_' && column[8] == 't' && column[9] == 'a' && column[10] == 'r' && column[11] == 'g' && column[12] == 'e' && column[13] == 't' && column[14] == '_',
{
    reveal_strlit("filling_target_");
    if text::occurs_at(column, "filling_target_"@, 0) {
        let s = column.subrange(0, 15);
        assert(s[0] == 'f' && s[1] == 'i' && s[2] == 'l' && s[3] == 'l' && s[4] == 'i' && s[5] == 'n' && s[6] == 'g' && s[7] == '_' && s[8] == 't' && s[9] == 'a' && s[10] == 'r' && s[11] == 'g' && s[12] == 'e' && s[13] == 't' && s[14] == '_');
    }
}

proof fn begins_with_slack_(column: Seq<char>)
    ensures
        text::occurs_at(column, "slack_"@, 0) ==> column.len() >= 6 && column[0] == 's' && column[1] == 'l' && column[2] == 'a' && column[3] == 'c' && column[4] == 'k' && column[5] == '_',
{
    reveal_strlit("slack_");
    if text::occurs_at(column, "slack_"@, 0) {
        let s = column.subrange(0, 6);
        assert(s[0] == 's' && s[1] == 'l' && s[2] == 'a' && s[3] == 'c' && s[4] == 'k' && s[5] == '_');
    }
}

proof fn begins_with_retry_(column: Seq<char>)
    ensures
        text::occurs_at(column, "retry_"@, 0) ==> column.len() >= 6 && column[0] == 'r' && column[1] == 'e' && column[2] == 't' && column[3] == 'r' && column[4] == 'y' && column[5] == '_',
{
    reveal_strlit("retry_");
    if text::occurs_at(column, "retry_"@, 0) {
        let s = column.subrange(0, 6);
        assert(s[0] == 'r' && s[1] == 'e' && s[2] == 't' && s[3] == 'r' && s[4] == 'y' && s[5] == '_');
    }
}

proof fn begins_with_basis_(column: Seq<char>)
    ensures
        text::occurs_at(column, "basis_"@, 0) ==> column.len() >= 6 && column[0] == 'b' && column[1] == 'a' && column[2] == 's' && column[3] == 'i' && column[4] == 's' && column[5] == '_',
{
    reveal_strlit("basis_");
    if text::occurs_at(column, "basis_"@, 0) {
        let s = column.subrange(0, 6);
        assert(s[0] == 'b' && s[1] == 'a' && s[2] == 's' && s[3] == 'i' && s[4] == 's' && s[5] == '_');
    }
}

proof fn begins_with_stage(column: Seq<char>)
    ensures
        text::occurs_at(column, "stage"@, 0) ==> column.len() >= 5 && column[0] == 's' && column[1] == 't' && column[2] == 'a' && column[3] == 'g' && column[4] == 'e',
{
    reveal_strlit("stage");
    if text::occurs_at(column, "stage"@, 0) {
        let s = column.subrange(0, 5);
        assert(s[0] == 's' && s[1] == 't' && s[2] == 'a' && s[3] == 'g' && s[4] == 'e');
    }
}

proof fn begins_with_block_(column: Seq<char>)
    ensures
        text::occurs_at(column, "block_"@, 0) ==> column.len() >= 6 && column[0] == 'b' && column[1] == 'l' && column[2] == 'o' && column[3] == 'c' && column[4] == 'k' && column[5] == '_',
{
    reveal_strlit("block_");
    if text::occurs_at(column, "block_"@, 0) {
        let s = column.subrange(0, 6);
        assert(s[0] == 'b' && s[1] == 'l' && s[2] == 'o' && s[3] == 'c' && s[4] == 'k' && s[5] == '_');
    }
}

proof fn begins_with_iteration(column: Seq<char>)
    ensures
        text::occurs_at(column, "iteration"@, 0) ==> column.len() >= 9 && column[0] == 'i' && column[1] == 't' && column[2] == 'e' && column[3] == 'r' && column[4] == 'a' && column[5] == 't' && column[6] == 'i' && column[7] == 'o' && column[8] == 'n',
{
    reveal_strlit("iteration");
    if text::occurs_at(column, "iteration"@, 0) {
        let s = column.subrange(0, 9);
        assert(s[0] == 'i' && s[1] == 't' && s[2] == 'e' && s[3] == 'r' && s[4] == 'a' && s[5] == 't' && s[6] == 'i' && s[7] == 'o' && s[8] == 'n');
    }
}

proof fn begins_with_bus_(column: Seq<char>)
    ensures
        text::occurs_at(column, "bus_"@, 0) ==> column.len() >= 4 && column[0] == 'b' && column[1] == 'u' && column[2] == 's' && column[3] == '_',
{
    reveal_strlit("bus_");
    if text::occurs_at(column, "bus_"@, 0) {
        let s = column.subrange(0, 4);
        assert(s[0] == 'b' && s[1] == 'u' && s[2] == 's' && s[3] == '_');
    }
}

proof fn begins_with_line_(column: Seq<char>)
    ensures
        text::occurs_at(column, "line_"@, 0) ==> column.len() >= 5 && column[0] == 'l' && column[1] == 'i' && column[2] == 'n' && column[3] == 'e' && column[4] == '_',
{
    reveal_strlit("line_");
    if text::occurs_at(column, "line_"@, 0) {
        let s = column.subrange(0, 5);
        assert(s[0] == 'l' && s[1] == 'i' && s[2] == 'n' && s[3] == 'e' && s[4] == '_');
    }
}

proof fn begins_with_total_(column: Seq<char>)
    ensures
        text::occurs_at(column, "total_"@, 0) ==> column.len() >= 6 && column[0] == 't' && column[1] == 'o' && column[2] == 't' && column[3] == 'a' && column[4] == 'l' && column[5] == '_',
{
    reveal_strlit("total_");
    if text::occurs_at(column, "total_"@, 0) {
        let s = column.subrange(0, 6);
        assert(s[0] == 't' && s[1] == 'o' && s[2] == 't' && s[3] == 'a' && s[4] == 'l' && s[5] == '_');
    }
}

proof fn begins_with_immediate_(column: Seq<char>)
    ensures
        text::occurs_at(column, "immediate_"@, 0) ==> column.len() >= 10 && column[0] == 'i' && column[1] == 'm' && column[2] == 'm' && column[3] == 'e' && column[4] == 'd' && column[5] == 'i' && column[6] == 'a' && column[7] == 't' && column[8] == 'e' && column[9] == '_',
{
    reveal_strlit("immediate_");
    if text::occurs_at(column, "immediate_"@, 0) {
        let s = column.subrange(0, 10);
        assert(s[0] == 'i' && s[1] == 'm' && s[2] == 'm' && s[3] == 'e' && s[4] == 'd' && s[5] == 'i' && s[6] == 'a' && s[7] == 't' && s[8] == 'e' && s[9] == '_');
    }
}

proof fn begins_with_future_(column: Seq<char>)
    ensures
        text::occurs_at(column, "future_"@, 0) ==> column.len() >= 7 && column[0] == 'f' && column[1] == 'u' && column[2] == 't' && column[3] == 'u' && column[4] == 'r' && column[5] == 'e' && column[6] == '_',
{
    reveal_strlit("future_");
    if text::occurs_at(column, "future_"@, 0) {
        let s = column.subrange(0, 7);
        assert(s[0] == 'f' && s[1] == 'u' && s[2] == 't' && s[3] == 'u' && s[4] == 'r' && s[5] == 'e' && s[6] == '_');
    }
}

proof fn begins_with_discount_(column: Seq<char>)
    ensures
        text::occurs_at(column, "discount_"@, 0) ==> column.len() >= 9 && column[0] == 'd' && column[1] == 'i' && column[2] == 's' && column[3] == 'c' && column[4] == 'o' && column[5] == 'u' && column[6] == 'n' && column[7] == 't' && column[8] == '_',
{
    reveal_strlit("discount_");
    if text::occurs_at(column, "discount_"@, 0) {
        let s = column.subrange(0, 9);
        assert(s[0] == 'd' && s[1] == 'i' && s[2] == 's' && s[3] == 'c' && s[4] == 'o' && s[5] == 'u' && s[6] == 'n' && s[7] == 't' && s[8] == '_');
    }
}

proof fn begins_with_accumulated_(column: Seq<char>)
    ensures
        text::occurs_at(column, "accumulated_"@, 0) ==> column.len() >= 12 && column[0] == 'a' && column[1] == 'c' && column[2] == 'c' && column[3] == 'u' && column[4] == 'm' && column[5] == 'u' && column[6] == 'l' && column[7] == 'a' && column[8] == 't' && column[9] == 'e' && column[10] == 'd' && column[11] == '_',
{
    reveal_strlit("accumulated_");
    if text::occurs_at(column, "accumulated_"@, 0) {
        let s = column.subrange(0, 12);
        assert(s[0] == 'a' && s[1] == 'c' && s[2] == 'c' && s[3] == 'u' && s[4] == 'm' && s[5] == 'u' && s[6] == 'l' && s[7] == 'a' && s[8] == 't' && s[9] == 'e' && s[10] == 'd' && s[11] == '_');
    }
}

proof fn begins_with_equivalent_(column: Seq<char>)
    ensures
        text::occurs_at(column, "equivalent_"@, 0) ==> column.len() >= 11 && column[0] == 'e' && column[1] == 'q' && column[2] == 'u' && column[3] == 'i' && column[4] == 'v' && column[5] == 'a' && column[6] == 'l' && column[7] == 'e' && column[8] == 'n' && column[9] == 't' && column[10] == '_',
{
    reveal_strlit("equivalent_");
    if text::occurs_at(column, "equivalent_"@, 0) {
        let s = column.subrange(0, 11);
        assert(s[0] == 'e' && s[1] == 'q' && s[2] == 'u' && s[3] == 'i' && s[4] == 'v' && s[5] == 'a' && s[6] == 'l' && s[7] == 'e' && s[8] == 'n' && s[9] == 't' && s[10] == '_');
    }
}

proof fn begins_with_water_value_(column: Seq<char>)
    ensures
        text::occurs_at(column, "water_value_"@, 0) ==> column.len() >= 12 && column[0] == 'w' && column[1] == 'a' && column[2] == 't' && column[3] == 'e' && column[4] == 'r' && column[5] == '_' && column[6] == 'v' && column[7] == 'a' && column[8] == 'l' && column[9] == 'u' && column[10] == 'e' && column[11] == '_',
{
    reveal_strlit("water_value_");
    if text::occurs_at(column, "water_value_"@, 0) {
        let s = column.subrange(0, 12);
        assert(s[0] == 'w' && s[1] == 'a' && s[2] == 't' && s[3] == 'e' && s[4] == 'r' && s[5] == '_' && s[6] == 'v' && s[7] == 'a' && s[8] == 'l' && s[9] == 'u' && s[10] == 'e' && s[11] == '_');
    }
}

proof fn begins_with_power_(column: Seq<char>)
    ensures
        text::occurs_at(column, "power_"@, 0) ==> column.len() >= 6 && column[0] == 'p' && column[1] == 'o' && column[2] == 'w' && column[3] == 'e' && column[4] == 'r' && column[5] == '_',
{
    reveal_strlit("power_");
    if text::occurs_at(column, "power_"@, 0) {
        let s = column.subrange(0, 6);
        assert(s[0] == 'p' && s[1] == 'o' && s[2] == 'w' && s[3] == 'e' && s[4] == 'r' && s[5] == '_');
    }
}

proof fn begins_with_energy_(column: Seq<char>)
    ensures
        text::occurs_at(column, "energy_"@, 0) ==> column.len() >= 7 && column[0] == 'e' && column[1] == 'n' && column[2] == 'e' && column[3] == 'r' && column[4] == 'g' && column[5] == 'y' && column[6] == '_',
{
    reveal_strlit("energy_");
    if text::occurs_at(column, "energy_"@, 0) {
        let s = column.subrange(0, 7);
        assert(s[0] == 'e' && s[1] == 'n' && s[2] == 'e' && s[3] == 'r' && s[4] == 'g' && s[5] == 'y' && s[6] == '_');
    }
}

proof fn begins_with_available_(column: Seq<char>)
    ensures
        text::occurs_at(column, "available_"@, 0) ==> column.len() >= 10 && column[0] == 'a' && column[1] == 'v' && column[2] == 'a' && column[3] == 'i' && column[4] == 'l' && column[5] == 'a' && column[6] == 'b' && column[7] == 'l' && column[8] == 'e' && column[9] == '_',
{
    reveal_strlit("available_");
    if text::occurs_at(column, "available_"@, 0) {
        let s = column.subrange(0, 10);
        assert(s[0] == 'a' && s[1] == 'v' && s[2] == 'a' && s[3] == 'i' && s[4] == 'l' && s[5] == 'a' && s[6] == 'b' && s[7] == 'l' && s[8] == 'e' && s[9] == '_');
    }
}

proof fn begins_with_communication_(column: Seq<char>)
    ensures
        text::occurs_at(column, "communication_"@, 0) ==> column.len() >= 14 && column[0] == 'c' && column[1] == 'o' && column[2] == 'm' && column[3] == 'm' && column[4] == 'u' && column[5] == 'n' && column[6] == 'i' && column[7] == 'c' && column[8] == 'a' && column[9] == 't' && column[10] == 'i' && column[11] == 'o' && column[12] == 'n' && column[13] == '_',
{
    reveal_strlit("communication_");
    if text::occurs_at(column, "communication_"@, 0) {
        let s = column.subrange(0, 14);
        assert(s[0] == 'c' && s[1] == 'o' && s[2] == 'm' && s[3] == 'm' && s[4] == 'u' && s[5] == 'n' && s[6] == 'i' && s[7] == 'c' && s[8] == 'a' && s[9] == 't' && s[10] == 'i' && s[11] == 'o' && s[12] == 'n' && s[13] == '_');
    }
}

proof fn begins_with_idle_(column: Seq<char>)
    ensures
        text::occurs_at(column, "idle_"@, 0) ==> column.len() >= 5 && column[0] == 'i' && column[1] == 'd' && column[2] == 'l' && column[3] == 'e' && column[4] == '_',
{
    reveal_strlit("idle_");
    if text::occurs_at(column, "idle_"@, 0) {
        let s = column.subrange(0, 5);
        assert(s[0] == 'i' && s[1] == 'd' && s[2] == 'l' && s[3] == 'e' && s[4] == '_');
    }
}

proof fn begins_with_state_exchange_(column: Seq<char>)
    ensures
        text::occurs_at(column, "state_exchange_"@, 0) ==> column.len() >= 15 && column[0] == 's' && column[1] == 't' && column[2] == 'a' && column[3] == 't' && column[4] == 'e' && column[5] == '_' && column[6] == 'e' && column[7] == 'x' && column[8] == 'c' && column[9] == 'h' && column[10] == 'a' && column[11] == 'n' && column[12] == 'g' && column[13] == 'e' && column[14] == '_',
{
    reveal_strlit("state_exchange_");
    if text::occurs_at(column, "state_exchange_"@, 0) {
        let s = column.subrange(0, 15);
        assert(s[0] == 's' && s[1] == 't' && s[2] == 'a' && s[3] == 't' && s[4] == 'e' && s[5] == '_' && s[6] == 'e' && s[7] == 'x' && s[8] == 'c' && s[9] == 'h' && s[10] == 'a' && s[11] == 'n' && s[12] == 'g' && s[13] == 'e' && s[14] == '_');
    }
}

proof fn begins_with_mpi_allreduce_(column: Seq<char>)
    ensures
        text::occurs_at(column, "mpi_allreduce_"@, 0) ==> column.len() >= 14 && column[0] == 'm' && column[1] == 'p' && column[2] == 'i' && column[3] == '_' && column[4] == 'a' && column[5] == 'l' && column[6] == 'l' && column[7] == 'r' && column[8] == 'e' && column[9] == 'd' && column[10] == 'u' && column[11] == 'c' && column[12] == 'e' && column[13] == '_',
{
    reveal_strlit("mpi_allreduce_");
    if text::occurs_at(column, "mpi_allreduce_"@, 0) {
        let s = column.subrange(0, 14);
        assert(s[0] == 'm' && s[1] == 'p' && s[2] == 'i' && s[3] == '_' && s[4] == 'a' && s[5] == 'l' && s[6] == 'l' && s[7] == 'r' && s[8] == 'e' && s[9] == 'd' && s[10] == 'u' && s[11] == 'c' && s[12] == 'e' && s[13] == '_');
    }
}

proof fn begins_with_simplex_(column: Seq<char>)
    ensures
        text::occurs_at(column, "simplex_"@, 0) ==> column.len() >= 8 && column[0] == 's' && column[1] == 'i' && column[2] == 'm' && column[3] == 'p' && column[4] == 'l' && column[5] == 'e' && column[6] == 'x' && column[7] == '_',
{
    reveal_strlit("simplex_");
    if text::occurs_at(column, "simplex_"@, 0) {
        let s = column.subrange(0, 8);
        assert(s[0] == 's' && s[1] == 'i' && s[2] == 'm' && s[3] == 'p' && s[4] == 'l' && s[5] == 'e' && s[6] == 'x' && s[7] == '_');
    }
}

proof fn begins_with_solve_time(column: Seq<char>)
    ensures
        text::occurs_at(column, "solve_time"@, 0) ==> column.len() >= 10 && column[0] == 's' && column[1] == 'o' && column[2] == 'l' && column[3] == 'v' && column[4] == 'e' && column[5] == '_' && column[6] == 't' && column[7] == 'i' && column[8] == 'm' && column[9] == 'e',
{
    reveal_strlit("solve_time");
    if text::occurs_at(column, "solve_time"@, 0) {
        let s = column.subrange(0, 10);
        assert(s[0] == 's' && s[1] == 'o' && s[2] == 'l' && s[3] == 'v' && s[4] == 'e' && s[5] == '_' && s[6] == 't' && s[7] == 'i' && s[8] == 'm' && s[9] == 'e');
    }
}

proof fn begins_with_set_bounds_(column: Seq<char>)
    ensures
        text::occurs_at(column, "set_bounds_"@, 0) ==> column.len() >= 11 && column[0] == 's' && column[1] == 'e' && column[2] == 't' && column[3] == '_' && column[4] == 'b' && column[5] == 'o' && column[6] == 'u' && column[7] == 'n' && column[8] == 'd' && column[9] == 's' && column[10] == '_',
{
    reveal_strlit("set_bounds_");
    if text::occurs_at(column, "set_bounds_"@, 0) {
        let s = column.subrange(0, 11);
        assert(s[0] == 's' && s[1] == 'e' && s[2] == 't' && s[3] == '_' && s[4] == 'b' && s[5] == 'o' && s[6] == 'u' && s[7] == 'n' && s[8] == 'd' && s[9] == 's' && s[10] == '_');
    }
}

proof fn begins_with_non_controllable_(column: Seq<char>)
    ensures
        text::occurs_at(column, "non_controllable_"@, 0) ==> column.len() >= 17 && column[0] == 'n' && column[1] == 'o' && column[2] == 'n' && column[3] == '_' && column[4] == 'c' && column[5] == 'o' && column[6] == 'n' && column[7] == 't' && column[8] == 'r' && column[9] == 'o' && column[10] == 'l' && column[11] == 'l' && column[12] == 'a' && column[13] == 'b' && column[14] == 'l' && column[15] == 'e' && column[16] == '_',
{
    reveal_strlit("non_controllable_");
    if text::occurs_at(column, "non_controllable_"@, 0) {
        let s = column.subrange(0, 17);
        assert(s[0] == 'n' && s[1] == 'o' && s[2] == 'n' && s[3] == '_' && s[4] == 'c' && s[5] == 'o' && s[6] == 'n' && s[7] == 't' && s[8] == 'r' && s[9] == 'o' && s[10] == 'l' && s[11] == 'l' && s[12] == 'a' && s[13] == 'b' && s[14] == 'l' && s[15] == 'e' && s[16] == '_');
    }
}

proof fn begins_with_price_(column: Seq<char>)
    ensures
        text::occurs_at(column, "price_"@, 0) ==> column.len() >= 6 && column[0] == 'p' && column[1] == 'r' && column[2] == 'i' && column[3] == 'c' && column[4] == 'e' && column[5] == '_',
{
    reveal_strlit("price_");
    if text::occurs_at(column, "price_"@, 0) {
        let s = column.subrange(0, 6);
        assert(s[0] == 'p' && s[1] == 'r' && s[2] == 'i' && s[3] == 'c' && s[4] == 'e' && s[5] == '_');
    }
}

proof fn begins_with_spot_(column: Seq<char>)
    ensures
        text::occurs_at(column, "spot_"@, 0) ==> column.len() >= 5 && column[0] == 's' && column[1] == 'p' && column[2] == 'o' && column[3] == 't' && column[4] == '_',
{
    reveal_strlit("spot_");
    if text::occurs_at(column, "spot_"@, 0) {
        let s = column.subrange(0, 5);
        assert(s[0] == 's' && s[1] == 'p' && s[2] == 'o' && s[3] == 't' && s[4] == '_');
    }
}

proof fn begins_with_worker_(column: Seq<char>)
    ensures
        text::occurs_at(column, "worker_"@, 0) ==> column.len() >= 7 && column[0] == 'w' && column[1] == 'o' && column[2] == 'r' && column[3] == 'k' && column[4] == 'e' && column[5] == 'r' && column[6] == '_',
{
    reveal_strlit("worker_");
    if text::occurs_at(column, "worker_"@, 0) {
        let s = column.subrange(0, 7);
        assert(s[0] == 'w' && s[1] == 'o' && s[2] == 'r' && s[3] == 'k' && s[4] == 'e' && s[5] == 'r' && s[6] == '_');
    }
}

proof fn begins_with_rank(column: Seq<char>)
    ensures
        text::occurs_at(column, "rank"@, 0) ==> column.len() >= 4 && column[0] == 'r' && column[1] == 'a' && column[2] == 'n' && column[3] == 'k',
{
    reveal_strlit("rank");
    if text::occurs_at(column, "rank"@, 0) {
        let s = column.subrange(0, 4);
        assert(s[0] == 'r' && s[1] == 'a' && s[2] == 'n' && s[3] == 'k');
    }
}

proof fn begins_with_scenarios_(column: Seq<char>)
    ensures
        text::occurs_at(column, "scenarios_"@, 0) ==> column.len() >= 10 && column[0] == 's' && column[1] == 'c' && column[2] == 'e' && column[3] == 'n' && column[4] == 'a' && column[5] == 'r' && column[6] == 'i' && column[7] == 'o' && column[8] == 's' && column[9] == '_',
{
    reveal_strlit("scenarios_");
    if text::occurs_at(column, "scenarios_"@, 0) {
        let s = column.subrange(0, 10);
        assert(s[0] == 's' && s[1] == 'c' && s[2] == 'e' && s[3] == 'n' && s[4] == 'a' && s[5] == 'r' && s[6] == 'i' && s[7] == 'o' && s[8] == 's' && s[9] == '_');
    }
}

proof fn begins_with_phase(column: Seq<char>)
    ensures
        text::occurs_at(column, "phase"@, 0) ==> column.len() >= 5 && column[0] == 'p' && column[1] == 'h' && column[2] == 'a' && column[3] == 's' && column[4] == 'e',
{
    reveal_strlit("phase");
    if text::occurs_at(column, "phase"@, 0) {
        let s = column.subrange(0, 5);
        assert(s[0] == 'p' && s[1] == 'h' && s[2] == 'a' && s[3] == 's' && s[4] == 'e');
    }
}

proof fn begins_with_opening(column: Seq<char>)
    ensures
        text::occurs_at(column, "opening"@, 0) ==> column.len() >= 7 && column[0] == 'o' && column[1] == 'p' && column[2] == 'e' && column[3] == 'n' && column[4] == 'i' && column[5] == 'n' && column[6] == 'g',
{
    reveal_strlit("opening");
    if text::occurs_at(column, "opening"@, 0) {
        let s = column.subrange(0, 7);
        assert(s[0] == 'o' && s[1] == 'p' && s[2] == 'e' && s[3] == 'n' && s[4] == 'i' && s[5] == 'n' && s[6] == 'g');
    }
}

proof fn begins_with_gap_(column: Seq<char>)
    ensures
        text::occurs_at(column, "gap_"@, 0) ==> column.len() >= 4 && column[0] == 'g' && column[1] == 'a' && column[2] == 'p' && column[3] == '_',
{
    reveal_strlit("gap_");
    if text::occurs_at(column, "gap_"@, 0) {
        let s = column.subrange(0, 4);
        assert(s[0] == 'g' && s[1] == 'a' && s[2] == 'p' && s[3] == '_');
    }
}

proof fn begins_with_selection_(column: Seq<char>)
    ensures
        text::occurs_at(column, "selection_"@, 0) ==> column.len() >= 10 && column[0] == 's' && column[1] == 'e' && column[2] == 'l' && column[3] == 'e' && column[4] == 'c' && column[5] == 't' && column[6] == 'i' && column[7] == 'o' && column[8] == 'n' && column[9] == '_',
{
    reveal_strlit("selection_");
    if text::occurs_at(column, "selection_"@, 0) {
        let s = column.subrange(0, 10);
        assert(s[0] == 's' && s[1] == 'e' && s[2] == 'l' && s[3] == 'e' && s[4] == 'c' && s[5] == 't' && s[6] == 'i' && s[7] == 'o' && s[8] == 'n' && s[9] == '_');
    }
}

proof fn begins_with_lag_(column: Seq<char>)
    ensures
        text::occurs_at(column, "lag_"@, 0) ==> column.len() >= 4 && column[0] == 'l' && column[1] == 'a' && column[2] == 'g' && column[3] == '_',
{
    reveal_strlit("lag_");
    if text::occurs_at(column, "lag_"@, 0) {
        let s = column.subrange(0, 4);
        assert(s[0] == 'l' && s[1] == 'a' && s[2] == 'g' && s[3] == '_');
    }
}

proof fn begins_with_count(column: Seq<char>)
    ensures
        text::occurs_at(column, "count"@, 0) ==> column.len() >= 5 && column[0] == 'c' && column[1] == 'o' && column[2] == 'u' && column[3] == 'n' && column[4] == 't',
{
    reveal_strlit("count");
    if text::occurs_at(column, "count"@, 0) {
        let s = column.subrange(0, 5);
        assert(s[0] == 'c' && s[1] == 'o' && s[2] == 'u' && s[3] == 'n' && s[4] == 't');
    }
}

proof fn begins_with_operative_(column: Seq<char>)
    ensures
        text::occurs_at(column, "operative_"@, 0) ==> column.len() >= 10 && column[0] == 'o' && column[1] == 'p' && column[2] == 'e' && column[3] == 'r' && column[4] == 'a' && column[5] == 't' && column[6] == 'i' && column[7] == 'v' && column[8] == 'e' && column[9] == '_',
{
    reveal_strlit("operative_");
    if text::occurs_at(column, "operative_"@, 0) {
        let s = column.subrange(0, 10);
        assert(s[0] == 'o' && s[1] == 'p' && s[2] == 'e' && s[3] == 'r' && s[4] == 'a' && s[5] == 't' && s[6] == 'i' && s[7] == 'v' && s[8] == 'e' && s[9] == '_');
    }
}

proof fn begins_with_is_anticipated(column: Seq<char>)
    ensures
        text::occurs_at(column, "is_anticipated"@, 0) ==> column.len() >= 14 && column[0] == 'i' && column[1] == 's' && column[2] == '_' && column[3] == 'a' && column[4] == 'n' && column[5] == 't' && column[6] == 'i' && column[7] == 'c' && column[8] == 'i' && column[9] == 'p' && column[10] == 'a' && column[11] == 't' && column[12] == 'e' && column[13] == 'd',
{
    reveal_strlit("is_anticipated");
    if text::occurs_at(column, "is_anticipated"@, 0) {
        let s = column.subrange(0, 14);
        assert(s[0] == 'i' && s[1] == 's' && s[2] == '_' && s[3] == 'a' && s[4] == 'n' && s[5] == 't' && s[6] == 'i' && s[7] == 'c' && s[8] == 'i' && s[9] == 'p' && s[10] == 'a' && s[11] == 't' && s[12] == 'e' && s[13] == 'd');
    }
}

proof fn begins_with_constraint_(column: Seq<char>)
    ensures
        text::occurs_at(column, "constraint_"@, 0) ==> column.len() >= 11 && column[0] == 'c' && column[1] == 'o' && column[2] == 'n' && column[3] == 's' && column[4] == 't' && column[5] == 'r' && column[6] == 'a' && column[7] == 'i' && column[8] == 'n' && column[9] == 't' && column[10] == '_',
{
    reveal_strlit("constraint_");
    if text::occurs_at(column, "constraint_"@, 0) {
        let s = column.subrange(0, 11);
        assert(s[0] == 'c' && s[1] == 'o' && s[2] == 'n' && s[3] == 's' && s[4] == 't' && s[5] == 'r' && s[6] == 'a' && s[7] == 'i' && s[8] == 'n' && s[9] == 't' && s[10] == '_');
    }
}

proof fn begins_with_budget_(column: Seq<char>)
    ensures
        text::occurs_at(column, "budget_"@, 0) ==> column.len() >= 7 && column[0] == 'b' && column[1] == 'u' && column[2] == 'd' && column[3] == 'g' && column[4] == 'e' && column[5] == 't' && column[6] == '_',
{
    reveal_strlit("budget_");
    if text::occurs_at(column, "budget_"@, 0) {
        let s = column.subrange(0, 7);
        assert(s[0] == 'b' && s[1] == 'u' && s[2] == 'd' && s[3] == 'g' && s[4] == 'e' && s[5] == 't' && s[6] == '_');
    }
}

proof fn begins_with_active_(column: Seq<char>)
    ensures
        text::occurs_at(column, "active_"@, 0) ==> column.len() >= 7 && column[0] == 'a' && column[1] == 'c' && column[2] == 't' && column[3] == 'i' && column[4] == 'v' && column[5] == 'e' && column[6] == '_',
{
    reveal_strlit("active_");
    if text::occurs_at(column, "active_"@, 0) {
        let s = column.subrange(0, 7);
        assert(s[0] == 'a' && s[1] == 'c' && s[2] == 't' && s[3] == 'i' && s[4] == 'v' && s[5] == 'e' && s[6] == '_');
    }
}

proof fn begins_with_mean_rows_(column: Seq<char>)
    ensures
        text::occurs_at(column, "mean_rows_"@, 0) ==> column.len() >= 10 && column[0] == 'm' && column[1] == 'e' && column[2] == 'a' && column[3] == 'n' && column[4] == '_' && column[5] == 'r' && column[6] == 'o' && column[7] == 'w' && column[8] == 's' && column[9] == '_',
{
    reveal_strlit("mean_rows_");
    if text::occurs_at(column, "mean_rows_"@, 0) {
        let s = column.subrange(0, 10);
        assert(s[0] == 'm' && s[1] == 'e' && s[2] == 'a' && s[3] == 'n' && s[4] == '_' && s[5] == 'r' && s[6] == 'o' && s[7] == 'w' && s[8] == 's' && s[9] == '_');
    }
}

proof fn begins_with_lazy_(column: Seq<char>)
    ensures
        text::occurs_at(column, "lazy_"@, 0) ==> column.len() >= 5 && column[0] == 'l' && column[1] == 'a' && column[2] == 'z' && column[3] == 'y' && column[4] == '_',
{
    reveal_strlit("lazy_");
    if text::occurs_at(column, "lazy_"@, 0) {
        let s = column.subrange(0, 5);
        assert(s[0] == 'l' && s[1] == 'a' && s[2] == 'z' && s[3] == 'y' && s[4] == '_');
    }
}

proof fn begins_with_overhead(column: Seq<char>)
    ensures
        text::occurs_at(column, "overhead"@, 0) ==> column.len() >= 8 && column[0] == 'o' && column[1] == 'v' && column[2] == 'e' && column[3] == 'r' && column[4] == 'h' && column[5] == 'e' && column[6] == 'a' && column[7] == 'd',
{
    reveal_strlit("overhead");
    if text::occurs_at(column, "overhead"@, 0) {
        let s = column.subrange(0, 8);
        assert(s[0] == 'o' && s[1] == 'v' && s[2] == 'e' && s[3] == 'r' && s[4] == 'h' && s[5] == 'e' && s[6] == 'a' && s[7] == 'd');
    }
}

/// The files have different names.
proof fn files_are_apart()
    ensures
        "hydros"@ != "costs"@,
        "thermals"@ != "costs"@,
        "thermals"@ != "hydros"@,
        "exchanges"@ != "costs"@,
        "exchanges"@ != "hydros"@,
        "exchanges"@ != "thermals"@,
        "buses"@ != "costs"@,
        "buses"@ != "hydros"@,
        "buses"@ != "thermals"@,
        "buses"@ != "exchanges"@,
        "pumping_stations"@ != "costs"@,
        "pumping_stations"@ != "hydros"@,
        "pumping_stations"@ != "thermals"@,
        "pumping_stations"@ != "exchanges"@,
        "pumping_stations"@ != "buses"@,
        "contracts"@ != "costs"@,
        "contracts"@ != "hydros"@,
        "contracts"@ != "thermals"@,
        "contracts"@ != "exchanges"@,
        "contracts"@ != "buses"@,
        "contracts"@ != "pumping_stations"@,
        "non_controllables"@ != "costs"@,
        "non_controllables"@ != "hydros"@,
        "non_controllables"@ != "thermals"@,
        "non_controllables"@ != "exchanges"@,
        "non_controllables"@ != "buses"@,
        "non_controllables"@ != "pumping_stations"@,
        "non_controllables"@ != "contracts"@,
        "inflow_lags"@ != "costs"@,
        "inflow_lags"@ != "hydros"@,
        "inflow_lags"@ != "thermals"@,
        "inflow_lags"@ != "exchanges"@,
        "inflow_lags"@ != "buses"@,
        "inflow_lags"@ != "pumping_stations"@,
        "inflow_lags"@ != "contracts"@,
        "inflow_lags"@ != "non_controllables"@,
        "generic_violations"@ != "costs"@,
        "generic_violations"@ != "hydros"@,
        "generic_violations"@ != "thermals"@,
        "generic_violations"@ != "exchanges"@,
        "generic_violations"@ != "buses"@,
        "generic_violations"@ != "pumping_stations"@,
        "generic_violations"@ != "contracts"@,
        "generic_violations"@ != "non_controllables"@,
        "generic_violations"@ != "inflow_lags"@,
        "convergence"@ != "costs"@,
        "convergence"@ != "hydros"@,
        "convergence"@ != "thermals"@,
        "convergence"@ != "exchanges"@,
        "convergence"@ != "buses"@,
        "convergence"@ != "pumping_stations"@,
        "convergence"@ != "contracts"@,
        "convergence"@ != "non_controllables"@,
        "convergence"@ != "inflow_lags"@,
        "convergence"@ != "generic_violations"@,
        "iteration_timing"@ != "costs"@,
        "iteration_timing"@ != "hydros"@,
        "iteration_timing"@ != "thermals"@,
        "iteration_timing"@ != "exchanges"@,
        "iteration_timing"@ != "buses"@,
        "iteration_timing"@ != "pumping_stations"@,
        "iteration_timing"@ != "contracts"@,
        "iteration_timing"@ != "non_controllables"@,
        "iteration_timing"@ != "inflow_lags"@,
        "iteration_timing"@ != "generic_violations"@,
        "iteration_timing"@ != "convergence"@,
        "rank_timing"@ != "costs"@,
        "rank_timing"@ != "hydros"@,
        "rank_timing"@ != "thermals"@,
        "rank_timing"@ != "exchanges"@,
        "rank_timing"@ != "buses"@,
        "rank_timing"@ != "pumping_stations"@,
        "rank_timing"@ != "contracts"@,
        "rank_timing"@ != "non_controllables"@,
        "rank_timing"@ != "inflow_lags"@,
        "rank_timing"@ != "generic_violations"@,
        "rank_timing"@ != "convergence"@,
        "rank_timing"@ != "iteration_timing"@,
        "cut_selection"@ != "costs"@,
        "cut_selection"@ != "hydros"@,
        "cut_selection"@ != "thermals"@,
        "cut_selection"@ != "exchanges"@,
        "cut_selection"@ != "buses"@,
        "cut_selection"@ != "pumping_stations"@,
        "cut_selection"@ != "contracts"@,
        "cut_selection"@ != "non_controllables"@,
        "cut_selection"@ != "inflow_lags"@,
        "cut_selection"@ != "generic_violations"@,
        "cut_selection"@ != "convergence"@,
        "cut_selection"@ != "iteration_timing"@,
        "cut_selection"@ != "rank_timing"@,
        "solver_iterations"@ != "costs"@,
        "solver_iterations"@ != "hydros"@,
        "solver_iterations"@ != "thermals"@,
        "solver_iterations"@ != "exchanges"@,
        "solver_iterations"@ != "buses"@,
        "solver_iterations"@ != "pumping_stations"@,
        "solver_iterations"@ != "contracts"@,
        "solver_iterations"@ != "non_controllables"@,
        "solver_iterations"@ != "inflow_lags"@,
        "solver_iterations"@ != "generic_violations"@,
        "solver_iterations"@ != "convergence"@,
        "solver_iterations"@ != "iteration_timing"@,
        "solver_iterations"@ != "rank_timing"@,
        "solver_iterations"@ != "cut_selection"@,
        "retry_histogram"@ != "costs"@,
        "retry_histogram"@ != "hydros"@,
        "retry_histogram"@ != "thermals"@,
        "retry_histogram"@ != "exchanges"@,
        "retry_histogram"@ != "buses"@,
        "retry_histogram"@ != "pumping_stations"@,
        "retry_histogram"@ != "contracts"@,
        "retry_histogram"@ != "non_controllables"@,
        "retry_histogram"@ != "inflow_lags"@,
        "retry_histogram"@ != "generic_violations"@,
        "retry_histogram"@ != "convergence"@,
        "retry_histogram"@ != "iteration_timing"@,
        "retry_histogram"@ != "rank_timing"@,
        "retry_histogram"@ != "cut_selection"@,
        "retry_histogram"@ != "solver_iterations"@,
{
    reveal_strlit("costs");
    assert("costs"@.len() == 5 && "costs"@[0] == 'c');
    reveal_strlit("hydros");
    assert("hydros"@.len() == 6 && "hydros"@[0] == 'h');
    reveal_strlit("thermals");
    assert("thermals"@.len() == 8 && "thermals"@[0] == 't');
    reveal_strlit("exchanges");
    assert("exchanges"@.len() == 9 && "exchanges"@[0] == 'e');
    reveal_strlit("buses");
    assert("buses"@.len() == 5 && "buses"@[0] == 'b');
    reveal_strlit("pumping_stations");
    assert("pumping_stations"@.len() == 16 && "pumping_stations"@[0] == 'p');
    reveal_strlit("contracts");
    assert("contracts"@.len() == 9 && "contracts"@[0] == 'c');
    reveal_strlit("non_controllables");
    assert("non_controllables"@.len() == 17 && "non_controllables"@[0] == 'n');
    reveal_strlit("inflow_lags");
    assert("inflow_lags"@.len() == 11 && "inflow_lags"@[0] == 'i');
    reveal_strlit("generic_violations");
    assert("generic_violations"@.len() == 18 && "generic_violations"@[0] == 'g');
    reveal_strlit("convergence");
    assert("convergence"@.len() == 11 && "convergence"@[0] == 'c');
    reveal_strlit("iteration_timing");
    assert("iteration_timing"@.len() == 16 && "iteration_timing"@[0] == 'i');
    reveal_strlit("rank_timing");
    assert("rank_timing"@.len() == 11 && "rank_timing"@[0] == 'r');
    reveal_strlit("cut_selection");
    assert("cut_selection"@.len() == 13 && "cut_selection"@[0] == 'c');
    reveal_strlit("solver_iterations");
    assert("solver_iterations"@.len() == 17 && "solver_iterations"@[0] == 's');
    reveal_strlit("retry_histogram");
    assert("retry_histogram"@.len() == 15 && "retry_histogram"@[0] == 'r');
}

spec fn costs_fit(column: Seq<char>, d: Seq<char>) -> bool {
    &&& text::ends_in(column, "_cost"@) ==> text::occurs_in(d, "cost"@) || text::occurs_in(d, "Cost"@) || text::occurs_in(d, "penalty"@)
    &&& text::ends_in(column, "_id"@) ==> text::occurs_in(d, "index"@)
    &&& text::ends_in(column, "_above_cost"@) ==> text::occurs_in(d, "maximum"@)
    &&& text::ends_in(column, "_below_cost"@) ==> text::occurs_in(d, "minimum"@)
    &&& text::occurs_at(column, "evaporation_"@, 0) ==> text::occurs_in(d, "vaporation"@)
    &&& text::occurs_at(column, "turbined_"@, 0) ==> text::occurs_in(d, "urbin"@)
    &&& text::occurs_at(column, "outflow_"@, 0) ==> text::occurs_in(d, "outflow"@)
    &&& text::occurs_at(column, "curtailment_"@, 0) ==> text::occurs_in(d, "urtail"@)
    &&& text::occurs_at(column, "deficit_"@, 0) ==> text::occurs_in(d, "deficit"@)
    &&& text::occurs_at(column, "storage_"@, 0) ==> text::occurs_in(d, "torage"@)
    &&& text::occurs_at(column, "spillage_"@, 0) ==> text::occurs_in(d, "pill"@)
    &&& text::occurs_at(column, "pumping_"@, 0) ==> text::occurs_in(d, "umping"@)
    &&& text::occurs_at(column, "contract_"@, 0) ==> text::occurs_in(d, "ontract"@)
    &&& text::occurs_at(column, "thermal_"@, 0) ==> text::occurs_in(d, "hermal"@)
    &&& text::occurs_at(column, "generation_"@, 0) ==> text::occurs_in(d, "enerat"@)
    &&& text::occurs_at(column, "excess_"@, 0) ==> text::occurs_in(d, "xcess"@)
    &&& text::occurs_at(column, "exchange_"@, 0) ==> text::occurs_in(d, "xchange"@)
    &&& text::occurs_at(column, "hydro_"@, 0) ==> text::occurs_in(d, "ydro"@)
    &&& text::occurs_at(column, "inflow_"@, 0) ==> text::occurs_in(d, "nflow"@)
    &&& text::occurs_at(column, "withdrawal_"@, 0) ==> text::occurs_in(d, "ithdrawal"@)
    &&& text::occurs_at(column, "anticipated_"@, 0) ==> text::occurs_in(d, "nticipated"@)
    &&& text::occurs_at(column, "generic_"@, 0) ==> text::occurs_in(d, "generic"@)
    &&& text::occurs_at(column, "filling_target_"@, 0) ==> text::occurs_in(d, "illing"@)
    &&& text::occurs_at(column, "stage"@, 0) ==> text::occurs_in(d, "Stage"@)
    &&& text::occurs_at(column, "block_"@, 0) ==> text::occurs_in(d, "Block"@)
    &&& text::occurs_at(column, "total_"@, 0) ==> text::occurs_in(d, "Total"@)
    &&& text::occurs_at(column, "immediate_"@, 0) ==> text::occurs_in(d, "Immediate"@)
    &&& text::occurs_at(column, "future_"@, 0) ==> text::occurs_in(d, "future"@)
    &&& text::occurs_at(column, "discount_"@, 0) ==> text::occurs_in(d, "Discount"@)
}

#[verifier::spinoff_prover]
#[verifier::rlimit(60)]
proof fn costs_are_described()
    ensures
        variables::costs_description("stage_id"@) == "Stage index"@,
        variables::costs_description("block_id"@) == "Block index within stage (nullable)"@,
        variables::costs_description("total_cost"@) == "Total stage cost"@,
        variables::costs_description("immediate_cost"@) == "Immediate (operation) cost"@,
        variables::costs_description("future_cost"@) == "Expected future cost (envelope value)"@,
        variables::costs_description("discount_factor"@) == "Discount factor applied to this stage"@,
        variables::costs_description("thermal_cost"@) == "Total thermal generation cost"@,
        variables::costs_description("anticipated_thermal_cost"@) == "Total anticipated (forward-committed) thermal generation cost"@,
        variables::costs_description("contract_cost"@) == "Total contract cost"@,
        variables::costs_description("deficit_cost"@) == "Total load-deficit penalty cost"@,
        variables::costs_description("excess_cost"@) == "Total excess-generation cost"@,
        variables::costs_description("storage_violation_cost"@) == "Total storage violation penalty"@,
        variables::costs_description("filling_target_cost"@) == "Total filling-target violation cost"@,
        variables::costs_description("hydro_violation_cost"@) == "Total hydro constraint violation cost"@,
        variables::costs_description("outflow_violation_below_cost"@) == "Cost of minimum outflow violations"@,
        variables::costs_description("outflow_violation_above_cost"@) == "Cost of maximum outflow violations"@,
        variables::costs_description("turbined_violation_cost"@) == "Cost of minimum turbining violations"@,
        variables::costs_description("generation_violation_cost"@) == "Cost of minimum generation violations"@,
        variables::costs_description("evaporation_violation_cost"@) == "Cost of evaporation constraint violations"@,
        variables::costs_description("withdrawal_violation_cost"@) == "Cost of water withdrawal constraint violations"@,
        variables::costs_description("inflow_penalty_cost"@) == "Total inflow non-negativity penalty"@,
        variables::costs_description("generic_violation_cost"@) == "Total generic constraint violation cost"@,
        variables::costs_description("spillage_cost"@) == "Total spillage regularization cost"@,
        variables::costs_description("turbined_cost"@) == "Total turbined regularization cost"@,
        variables::costs_description("curtailment_cost"@) == "Total curtailment cost"@,
        variables::costs_description("exchange_cost"@) == "Total exchange regularization cost"@,
        variables::costs_description("pumping_cost"@) == "Total pumping cost"@,
{
    reveal_strlit("stage_id");
    assert("stage_id"@.len() == 8);
    reveal_strlit("block_id");
    assert("block_id"@.len() == 8);
    reveal_strlit("total_cost");
    assert("total_cost"@.len() == 10);
    reveal_strlit("immediate_cost");
    assert("immediate_cost"@.len() == 14);
    reveal_strlit("future_cost");
    assert("future_cost"@.len() == 11);
    reveal_strlit("discount_factor");
    assert("discount_factor"@.len() == 15);
    reveal_strlit("thermal_cost");
    assert("thermal_cost"@.len() == 12);
    reveal_strlit("anticipated_thermal_cost");
    assert("anticipated_thermal_cost"@.len() == 24);
    reveal_strlit("contract_cost");
    assert("contract_cost"@.len() == 13);
    reveal_strlit("deficit_cost");
    assert("deficit_cost"@.len() == 12);
    reveal_strlit("excess_cost");
    assert("excess_cost"@.len() == 11);
    reveal_strlit("storage_violation_cost");
    assert("storage_violation_cost"@.len() == 22);
    reveal_strlit("filling_target_cost");
    assert("filling_target_cost"@.len() == 19);
    reveal_strlit("hydro_violation_cost");
    assert("hydro_violation_cost"@.len() == 20);
    reveal_strlit("outflow_violation_below_cost");
    assert("outflow_violation_below_cost"@.len() == 28);
    reveal_strlit("outflow_violation_above_cost");
    assert("outflow_violation_above_cost"@.len() == 28);
    reveal_strlit("turbined_violation_cost");
    assert("turbined_violation_cost"@.len() == 23);
    reveal_strlit("generation_violation_cost");
    assert("generation_violation_cost"@.len() == 25);
    reveal_strlit("evaporation_violation_cost");
    assert("evaporation_violation_cost"@.len() == 26);
    reveal_strlit("withdrawal_violation_cost");
    assert("withdrawal_violation_cost"@.len() == 25);
    reveal_strlit("inflow_penalty_cost");
    assert("inflow_penalty_cost"@.len() == 19);
    reveal_strlit("generic_violation_cost");
    assert("generic_violation_cost"@.len() == 22);
    reveal_strlit("spillage_cost");
    assert("spillage_cost"@.len() == 13);
    reveal_strlit("turbined_cost");
    assert("turbined_cost"@.len() == 13);
    reveal_strlit("curtailment_cost");
    assert("curtailment_cost"@.len() == 16);
    reveal_strlit("exchange_cost");
    assert("exchange_cost"@.len() == 13);
    reveal_strlit("pumping_cost");
    assert("pumping_cost"@.len() == 12);
    assert("block_id"@[0] == 'b' && "stage_id"@[0] == 's');
    assert("deficit_cost"@[0] == 'd' && "thermal_cost"@[0] == 't');
    assert("excess_cost"@[0] == 'e' && "future_cost"@[0] == 'f');
    assert("outflow_violation_above_cost"@[18] == 'a' && "outflow_violation_below_cost"@[18] == 'b');
    assert("withdrawal_violation_cost"@[0] == 'w' && "generation_violation_cost"@[0] == 'g');
    assert("inflow_penalty_cost"@[0] == 'i' && "filling_target_cost"@[0] == 'f');
    assert("generic_violation_cost"@[0] == 'g' && "storage_violation_cost"@[0] == 's');
    assert("spillage_cost"@[0] == 's' && "contract_cost"@[0] == 'c');
    assert("turbined_cost"@[0] == 't' && "contract_cost"@[0] == 'c');
    assert("turbined_cost"@[0] == 't' && "spillage_cost"@[0] == 's');
    assert("exchange_cost"@[0] == 'e' && "contract_cost"@[0] == 'c');
    assert("exchange_cost"@[0] == 'e' && "spillage_cost"@[0] == 's');
    assert("exchange_cost"@[0] == 'e' && "turbined_cost"@[0] == 't');
    assert("pumping_cost"@[0] == 'p' && "thermal_cost"@[0] == 't');
    assert("pumping_cost"@[0] == 'p' && "deficit_cost"@[0] == 'd');
}

/// What the file on costs says of a column goes with the column's name: where the name
/// begins or ends in a word, the description has that word, or one that stands for it.
#[verifier::spinoff_prover]
#[verifier::rlimit(60)]
pub proof fn costs_say_what_their_names_say(column: Seq<char>)
    requires
        variables::description_of("costs"@, column) != ""@,
    ensures
        text::ends_in(column, "_cost"@) ==> text::occurs_in(variables::description_of("costs"@, column), "cost"@) || text::occurs_in(variables::description_of("costs"@, column), "Cost"@) || text::occurs_in(variables::description_of("costs"@, column), "penalty"@),
        text::ends_in(column, "_id"@) ==> text::occurs_in(variables::description_of("costs"@, column), "index"@),
        text::ends_in(column, "_above_cost"@) ==> text::occurs_in(variables::description_of("costs"@, column), "maximum"@),
        text::ends_in(column, "_below_cost"@) ==> text::occurs_in(variables::description_of("costs"@, column), "minimum"@),
        text::occurs_at(column, "evaporation_"@, 0) ==> text::occurs_in(variables::description_of("costs"@, column), "vaporation"@),
        text::occurs_at(column, "turbined_"@, 0) ==> text::occurs_in(variables::description_of("costs"@, column), "urbin"@),
        text::occurs_at(column, "outflow_"@, 0) ==> text::occurs_in(variables::description_of("costs"@, column), "outflow"@),
        text::occurs_at(column, "curtailment_"@, 0) ==> text::occurs_in(variables::description_of("costs"@, column), "urtail"@),
        text::occurs_at(column, "deficit_"@, 0) ==> text::occurs_in(variables::description_of("costs"@, column), "deficit"@),
        text::occurs_at(column, "storage_"@, 0) ==> text::occurs_in(variables::description_of("costs"@, column), "torage"@),
        text::occurs_at(column, "spillage_"@, 0) ==> text::occurs_in(variables::description_of("costs"@, column), "pill"@),
        text::occurs_at(column, "pumping_"@, 0) ==> text::occurs_in(variables::description_of("costs"@, column), "umping"@),
        text::occurs_at(column, "contract_"@, 0) ==> text::occurs_in(variables::description_of("costs"@, column), "ontract"@),
        text::occurs_at(column, "thermal_"@, 0) ==> text::occurs_in(variables::description_of("costs"@, column), "hermal"@),
        text::occurs_at(column, "generation_"@, 0) ==> text::occurs_in(variables::description_of("costs"@, column), "enerat"@),
        text::occurs_at(column, "excess_"@, 0) ==> text::occurs_in(variables::description_of("costs"@, column), "xcess"@),
        text::occurs_at(column, "exchange_"@, 0) ==> text::occurs_in(variables::description_of("costs"@, column), "xchange"@),
        text::occurs_at(column, "hydro_"@, 0) ==> text::occurs_in(variables::description_of("costs"@, column), "ydro"@),
        text::occurs_at(column, "inflow_"@, 0) ==> text::occurs_in(variables::description_of("costs"@, column), "nflow"@),
        text::occurs_at(column, "withdrawal_"@, 0) ==> text::occurs_in(variables::description_of("costs"@, column), "ithdrawal"@),
        text::occurs_at(column, "anticipated_"@, 0) ==> text::occurs_in(variables::description_of("costs"@, column), "nticipated"@),
        text::occurs_at(column, "generic_"@, 0) ==> text::occurs_in(variables::description_of("costs"@, column), "generic"@),
        text::occurs_at(column, "filling_target_"@, 0) ==> text::occurs_in(variables::description_of("costs"@, column), "illing"@),
        text::occurs_at(column, "stage"@, 0) ==> text::occurs_in(variables::description_of("costs"@, column), "Stage"@),
        text::occurs_at(column, "block_"@, 0) ==> text::occurs_in(variables::description_of("costs"@, column), "Block"@),
        text::occurs_at(column, "total_"@, 0) ==> text::occurs_in(variables::description_of("costs"@, column), "Total"@),
        text::occurs_at(column, "immediate_"@, 0) ==> text::occurs_in(variables::description_of("costs"@, column), "Immediate"@),
        text::occurs_at(column, "future_"@, 0) ==> text::occurs_in(variables::description_of("costs"@, column), "future"@),
        text::occurs_at(column, "discount_"@, 0) ==> text::occurs_in(variables::description_of("costs"@, column), "Discount"@),
{
    files_are_apart();
    let d = variables::description_of("costs"@, column);
    assert(d == variables::costs_description(column));
    ends_in_cost(column);
    ends_in_id(column);
    ends_in_above_cost(column);
    ends_in_below_cost(column);
    begins_with_evaporation_(column);
    begins_with_turbined_(column);
    begins_with_outflow_(column);
    begins_with_curtailment_(column);
    begins_with_deficit_(column);
    begins_with_storage_(column);
    begins_with_spillage_(column);
    begins_with_pumping_(column);
    begins_with_contract_(column);
    begins_with_thermal_(column);
    begins_with_generation_(column);
    begins_with_excess_(column);
    begins_with_exchange_(column);
    begins_with_hydro_(column);
    begins_with_inflow_(column);
    begins_with_withdrawal_(column);
    begins_with_anticipated_(column);
    begins_with_generic_(column);
    begins_with_filling_target_(column);
    begins_with_stage(column);
    begins_with_block_(column);
    begins_with_total_(column);
    begins_with_immediate_(column);
    begins_with_future_(column);
    begins_with_discount_(column);
    costs_are_described();
    if column == "stage_id"@ {
        reveal_strlit("stage_id");
        reveal_strlit("Stage index");
        assert(column.len() == 8);
        assert(d == "Stage index"@);
        reveal_strlit("index");
        assert(d.subrange(6, 11) =~= "index"@);
        has(d, "index"@, 6);
        reveal_strlit("Stage");
        assert(d.subrange(0, 5) =~= "Stage"@);
        has(d, "Stage"@, 0);
        assert(costs_fit(column, d));
    }
    if column == "block_id"@ {
        reveal_strlit("block_id");
        reveal_strlit("Block index within stage (nullable)");
        assert(column.len() == 8);
        assert(d == "Block index within stage (nullable)"@);
        reveal_strlit("index");
        assert(d.subrange(6, 11) =~= "index"@);
        has(d, "index"@, 6);
        reveal_strlit("Block");
        assert(d.subrange(0, 5) =~= "Block"@);
        has(d, "Block"@, 0);
        assert(costs_fit(column, d));
    }
    if column == "total_cost"@ {
        reveal_strlit("total_cost");
        reveal_strlit("Total stage cost");
        assert(column.len() == 10);
        assert(d == "Total stage cost"@);
        reveal_strlit("cost");
        assert(d.subrange(12, 16) =~= "cost"@);
        has(d, "cost"@, 12);
        reveal_strlit("Total");
        assert(d.subrange(0, 5) =~= "Total"@);
        has(d, "Total"@, 0);
        assert(costs_fit(column, d));
    }
    if column == "immediate_cost"@ {
        reveal_strlit("immediate_cost");
        reveal_strlit("Immediate (operation) cost");
        assert(column.len() == 14);
        assert(d == "Immediate (operation) cost"@);
        reveal_strlit("cost");
        assert(d.subrange(22, 26) =~= "cost"@);
        has(d, "cost"@, 22);
        reveal_strlit("Immediate");
        assert(d.subrange(0, 9) =~= "Immediate"@);
        has(d, "Immediate"@, 0);
        assert(costs_fit(column, d));
    }
    if column == "future_cost"@ {
        reveal_strlit("future_cost");
        reveal_strlit("Expected future cost (envelope value)");
        assert(column.len() == 11);
        assert(d == "Expected future cost (envelope value)"@);
        reveal_strlit("cost");
        assert(d.subrange(16, 20) =~= "cost"@);
        has(d, "cost"@, 16);
        reveal_strlit("future");
        assert(d.subrange(9, 15) =~= "future"@);
        has(d, "future"@, 9);
        assert(costs_fit(column, d));
    }
    if column == "discount_factor"@ {
        reveal_strlit("discount_factor");
        reveal_strlit("Discount factor applied to this stage");
        assert(column.len() == 15);
        assert(d == "Discount factor applied to this stage"@);
        reveal_strlit("Discount");
        assert(d.subrange(0, 8) =~= "Discount"@);
        has(d, "Discount"@, 0);
        assert(costs_fit(column, d));
    }
    if column == "thermal_cost"@ {
        reveal_strlit("thermal_cost");
        reveal_strlit("Total thermal generation cost");
        assert(column.len() == 12);
        assert(d == "Total thermal generation cost"@);
        reveal_strlit("cost");
        assert(d.subrange(25, 29) =~= "cost"@);
        has(d, "cost"@, 25);
        reveal_strlit("hermal");
        assert(d.subrange(7, 13) =~= "hermal"@);
        has(d, "hermal"@, 7);
        assert(costs_fit(column, d));
    }
    if column == "anticipated_thermal_cost"@ {
        reveal_strlit("anticipated_thermal_cost");
        reveal_strlit("Total anticipated (forward-committed) thermal generation cost");
        assert(column.len() == 24);
        assert(d == "Total anticipated (forward-committed) thermal generation cost"@);
        reveal_strlit("cost");
        assert(d.subrange(57, 61) =~= "cost"@);
        has(d, "cost"@, 57);
        reveal_strlit("nticipated");
        assert(d.subrange(7, 17) =~= "nticipated"@);
        has(d, "nticipated"@, 7);
        assert(costs_fit(column, d));
    }
    if column == "contract_cost"@ {
        reveal_strlit("contract_cost");
        reveal_strlit("Total contract cost");
        assert(column.len() == 13);
        assert(d == "Total contract cost"@);
        reveal_strlit("cost");
        assert(d.subrange(15, 19) =~= "cost"@);
        has(d, "cost"@, 15);
        reveal_strlit("ontract");
        assert(d.subrange(7, 14) =~= "ontract"@);
        has(d, "ontract"@, 7);
        assert(costs_fit(column, d));
    }
    if column == "deficit_cost"@ {
        reveal_strlit("deficit_cost");
        reveal_strlit("Total load-deficit penalty cost");
        assert(column.len() == 12);
        assert(d == "Total load-deficit penalty cost"@);
        reveal_strlit("cost");
        assert(d.subrange(27, 31) =~= "cost"@);
        has(d, "cost"@, 27);
        reveal_strlit("deficit");
        assert(d.subrange(11, 18) =~= "deficit"@);
        has(d, "deficit"@, 11);
        assert(costs_fit(column, d));
    }
    if column == "excess_cost"@ {
        reveal_strlit("excess_cost");
        reveal_strlit("Total excess-generation cost");
        assert(column.len() == 11);
        assert(d == "Total excess-generation cost"@);
        reveal_strlit("cost");
        assert(d.subrange(24, 28) =~= "cost"@);
        has(d, "cost"@, 24);
        reveal_strlit("xcess");
        assert(d.subrange(7, 12) =~= "xcess"@);
        has(d, "xcess"@, 7);
        assert(costs_fit(column, d));
    }
    if column == "storage_violation_cost"@ {
        reveal_strlit("storage_violation_cost");
        reveal_strlit("Total storage violation penalty");
        assert(column.len() == 22);
        assert(d == "Total storage violation penalty"@);
        reveal_strlit("penalty");
        assert(d.subrange(24, 31) =~= "penalty"@);
        has(d, "penalty"@, 24);
        reveal_strlit("torage");
        assert(d.subrange(7, 13) =~= "torage"@);
        has(d, "torage"@, 7);
        assert(costs_fit(column, d));
    }
    if column == "filling_target_cost"@ {
        reveal_strlit("filling_target_cost");
        reveal_strlit("Total filling-target violation cost");
        assert(column.len() == 19);
        assert(d == "Total filling-target violation cost"@);
        reveal_strlit("cost");
        assert(d.subrange(31, 35) =~= "cost"@);
        has(d, "cost"@, 31);
        reveal_strlit("illing");
        assert(d.subrange(7, 13) =~= "illing"@);
        has(d, "illing"@, 7);
        assert(costs_fit(column, d));
    }
    if column == "hydro_violation_cost"@ {
        reveal_strlit("hydro_violation_cost");
        reveal_strlit("Total hydro constraint violation cost");
        assert(column.len() == 20);
        assert(d == "Total hydro constraint violation cost"@);
        reveal_strlit("cost");
        assert(d.subrange(33, 37) =~= "cost"@);
        has(d, "cost"@, 33);
        reveal_strlit("ydro");
        assert(d.subrange(7, 11) =~= "ydro"@);
        has(d, "ydro"@, 7);
        assert(costs_fit(column, d));
    }
    if column == "outflow_violation_below_cost"@ {
        reveal_strlit("outflow_violation_below_cost");
        reveal_strlit("Cost of minimum outflow violations");
        assert(column.len() == 28);
        assert(d == "Cost of minimum outflow violations"@);
        reveal_strlit("Cost");
        assert(d.subrange(0, 4) =~= "Cost"@);
        has(d, "Cost"@, 0);
        reveal_strlit("minimum");
        assert(d.subrange(8, 15) =~= "minimum"@);
        has(d, "minimum"@, 8);
        reveal_strlit("outflow");
        assert(d.subrange(16, 23) =~= "outflow"@);
        has(d, "outflow"@, 16);
        assert(costs_fit(column, d));
    }
    if column == "outflow_violation_above_cost"@ {
        reveal_strlit("outflow_violation_above_cost");
        reveal_strlit("Cost of maximum outflow violations");
        assert(column.len() == 28);
        assert(d == "Cost of maximum outflow violations"@);
        reveal_strlit("Cost");
        assert(d.subrange(0, 4) =~= "Cost"@);
        has(d, "Cost"@, 0);
        reveal_strlit("maximum");
        assert(d.subrange(8, 15) =~= "maximum"@);
        has(d, "maximum"@, 8);
        reveal_strlit("outflow");
        assert(d.subrange(16, 23) =~= "outflow"@);
        has(d, "outflow"@, 16);
        assert(costs_fit(column, d));
    }
    if column == "turbined_violation_cost"@ {
        reveal_strlit("turbined_violation_cost");
        reveal_strlit("Cost of minimum turbining violations");
        assert(column.len() == 23);
        assert(d == "Cost of minimum turbining violations"@);
        reveal_strlit("Cost");
        assert(d.subrange(0, 4) =~= "Cost"@);
        has(d, "Cost"@, 0);
        reveal_strlit("urbin");
        assert(d.subrange(17, 22) =~= "urbin"@);
        has(d, "urbin"@, 17);
        assert(costs_fit(column, d));
    }
    if column == "generation_violation_cost"@ {
        reveal_strlit("generation_violation_cost");
        reveal_strlit("Cost of minimum generation violations");
        assert(column.len() == 25);
        assert(d == "Cost of minimum generation violations"@);
        reveal_strlit("Cost");
        assert(d.subrange(0, 4) =~= "Cost"@);
        has(d, "Cost"@, 0);
        reveal_strlit("enerat");
        assert(d.subrange(17, 23) =~= "enerat"@);
        has(d, "enerat"@, 17);
        assert(costs_fit(column, d));
    }
    if column == "evaporation_violation_cost"@ {
        reveal_strlit("evaporation_violation_cost");
        reveal_strlit("Cost of evaporation constraint violations");
        assert(column.len() == 26);
        assert(d == "Cost of evaporation constraint violations"@);
        reveal_strlit("Cost");
        assert(d.subrange(0, 4) =~= "Cost"@);
        has(d, "Cost"@, 0);
        reveal_strlit("vaporation");
        assert(d.subrange(9, 19) =~= "vaporation"@);
        has(d, "vaporation"@, 9);
        assert(costs_fit(column, d));
    }
    if column == "withdrawal_violation_cost"@ {
        reveal_strlit("withdrawal_violation_cost");
        reveal_strlit("Cost of water withdrawal constraint violations");
        assert(column.len() == 25);
        assert(d == "Cost of water withdrawal constraint violations"@);
        reveal_strlit("Cost");
        assert(d.subrange(0, 4) =~= "Cost"@);
        has(d, "Cost"@, 0);
        reveal_strlit("ithdrawal");
        assert(d.subrange(15, 24) =~= "ithdrawal"@);
        has(d, "ithdrawal"@, 15);
        assert(costs_fit(column, d));
    }
    if column == "inflow_penalty_cost"@ {
        reveal_strlit("inflow_penalty_cost");
        reveal_strlit("Total inflow non-negativity penalty");
        assert(column.len() == 19);
        assert(d == "Total inflow non-negativity penalty"@);
        reveal_strlit("penalty");
        assert(d.subrange(28, 35) =~= "penalty"@);
        has(d, "penalty"@, 28);
        reveal_strlit("nflow");
        assert(d.subrange(7, 12) =~= "nflow"@);
        has(d, "nflow"@, 7);
        assert(costs_fit(column, d));
    }
    if column == "generic_violation_cost"@ {
        reveal_strlit("generic_violation_cost");
        reveal_strlit("Total generic constraint violation cost");
        assert(column.len() == 22);
        assert(d == "Total generic constraint violation cost"@);
        reveal_strlit("cost");
        assert(d.subrange(35, 39) =~= "cost"@);
        has(d, "cost"@, 35);
        reveal_strlit("generic");
        assert(d.subrange(6, 13) =~= "generic"@);
        has(d, "generic"@, 6);
        assert(costs_fit(column, d));
    }
    if column == "spillage_cost"@ {
        reveal_strlit("spillage_cost");
        reveal_strlit("Total spillage regularization cost");
        assert(column.len() == 13);
        assert(d == "Total spillage regularization cost"@);
        reveal_strlit("cost");
        assert(d.subrange(30, 34) =~= "cost"@);
        has(d, "cost"@, 30);
        reveal_strlit("pill");
        assert(d.subrange(7, 11) =~= "pill"@);
        has(d, "pill"@, 7);
        assert(costs_fit(column, d));
    }
    if column == "turbined_cost"@ {
        reveal_strlit("turbined_cost");
        reveal_strlit("Total turbined regularization cost");
        assert(column.len() == 13);
        assert(d == "Total turbined regularization cost"@);
        reveal_strlit("cost");
        assert(d.subrange(30, 34) =~= "cost"@);
        has(d, "cost"@, 30);
        reveal_strlit("urbin");
        assert(d.subrange(7, 12) =~= "urbin"@);
        has(d, "urbin"@, 7);
        assert(costs_fit(column, d));
    }
    if column == "curtailment_cost"@ {
        reveal_strlit("curtailment_cost");
        reveal_strlit("Total curtailment cost");
        assert(column.len() == 16);
        assert(d == "Total curtailment cost"@);
        reveal_strlit("cost");
        assert(d.subrange(18, 22) =~= "cost"@);
        has(d, "cost"@, 18);
        reveal_strlit("urtail");
        assert(d.subrange(7, 13) =~= "urtail"@);
        has(d, "urtail"@, 7);
        assert(costs_fit(column, d));
    }
    if column == "exchange_cost"@ {
        reveal_strlit("exchange_cost");
        reveal_strlit("Total exchange regularization cost");
        assert(column.len() == 13);
        assert(d == "Total exchange regularization cost"@);
        reveal_strlit("cost");
        assert(d.subrange(30, 34) =~= "cost"@);
        has(d, "cost"@, 30);
        reveal_strlit("xchange");
        assert(d.subrange(7, 14) =~= "xchange"@);
        has(d, "xchange"@, 7);
        assert(costs_fit(column, d));
    }
    if column == "pumping_cost"@ {
        reveal_strlit("pumping_cost");
        reveal_strlit("Total pumping cost");
        assert(column.len() == 12);
        assert(d == "Total pumping cost"@);
        reveal_strlit("cost");
        assert(d.subrange(14, 18) =~= "cost"@);
        has(d, "cost"@, 14);
        reveal_strlit("umping");
        assert(d.subrange(7, 13) =~= "umping"@);
        has(d, "umping"@, 7);
        assert(costs_fit(column, d));
    }
}

spec fn hydros_fit(column: Seq<char>, d: Seq<char>) -> bool {
    &&& text::ends_in(column, "_mwh"@) ==> text::occurs_in(d, "energy"@)
    &&& text::ends_in(column, "_cost"@) ==> text::occurs_in(d, "cost"@)
    &&& text::ends_in(column, "_id"@) ==> text::occurs_in(d, "index"@) || text::occurs_in(d, "identifier"@)
    &&& text::ends_in(column, "_code"@) ==> text::occurs_in(d, "code"@)
    &&& text::ends_in(column, "_neg_m3s"@) ==> text::occurs_in(d, "Under-"@)
    &&& text::ends_in(column, "_pos_m3s"@) ==> text::occurs_in(d, "Over-"@)
    &&& text::ends_in(column, "_initial_hm3"@) ==> text::occurs_in(d, "start"@)
    &&& text::ends_in(column, "_initial_mwh"@) ==> text::occurs_in(d, "start"@)
    &&& text::ends_in(column, "_final_hm3"@) ==> text::occurs_in(d, "end"@)
    &&& text::ends_in(column, "_final_mwh"@) ==> text::occurs_in(d, "end"@)
    &&& text::ends_in(column, "_above_m3s"@) ==> text::occurs_in(d, "maximum"@)
    &&& text::ends_in(column, "_below_m3s"@) ==> text::occurs_in(d, "minimum"@)
    &&& text::occurs_at(column, "evaporation_"@, 0) ==> text::occurs_in(d, "vaporation"@)
    &&& text::occurs_at(column, "turbined_"@, 0) ==> text::occurs_in(d, "urbin"@)
    &&& text::occurs_at(column, "outflow_"@, 0) ==> text::occurs_in(d, "outflow"@) || text::occurs_in(d, "Outflow"@)
    &&& text::occurs_at(column, "storage_"@, 0) ==> text::occurs_in(d, "torage"@)
    &&& text::occurs_at(column, "stored_energy_"@, 0) ==> text::occurs_in(d, "Stored energy"@)
    &&& text::occurs_at(column, "spillage_"@, 0) ==> text::occurs_in(d, "pill"@)
    &&& text::occurs_at(column, "generation_"@, 0) ==> text::occurs_in(d, "enerat"@)
    &&& text::occurs_at(column, "hydro_"@, 0) ==> text::occurs_in(d, "ydro"@)
    &&& text::occurs_at(column, "inflow_"@, 0) ==> text::occurs_in(d, "nflow"@)
    &&& text::occurs_at(column, "water_withdrawal_"@, 0) ==> text::occurs_in(d, "ithdrawal"@)
    &&& text::occurs_at(column, "incremental_"@, 0) ==> text::occurs_in(d, "Incremental"@)
    &&& text::occurs_at(column, "diverted_"@, 0) ==> text::occurs_in(d, "Diverted"@)
    &&& text::occurs_at(column, "filling_target_"@, 0) ==> text::occurs_in(d, "illing"@)
    &&& text::occurs_at(column, "stage"@, 0) ==> text::occurs_in(d, "Stage"@)
    &&& text::occurs_at(column, "block_"@, 0) ==> text::occurs_in(d, "Block"@)
    &&& text::occurs_at(column, "accumulated_"@, 0) ==> text::occurs_in(d, "Accumulated"@)
    &&& text::occurs_at(column, "equivalent_"@, 0) ==> text::occurs_in(d, "Equivalent"@)
    &&& text::occurs_at(column, "water_value_"@, 0) ==> text::occurs_in(d, "water value"@)
    &&& text::occurs_at(column, "operative_"@, 0) ==> text::occurs_in(d, "Operative"@)
}

#[verifier::spinoff_prover]
#[verifier::rlimit(60)]
proof fn hydros_are_described()
    ensures
        variables::hydros_description("stage_id"@) == "Stage index"@,
        variables::hydros_description("block_id"@) == "Block index within stage (nullable)"@,
        variables::hydros_description("hydro_id"@) == "Hydro plant identifier"@,
        variables::hydros_description("turbined_m3s"@) == "Turbined flow"@,
        variables::hydros_description("spillage_m3s"@) == "Spilled flow"@,
        variables::hydros_description("outflow_m3s"@) == "Total outflow (turbined + spilled)"@,
        variables::hydros_description("evaporation_m3s"@) == "Evaporation loss (nullable)"@,
        variables::hydros_description("diverted_inflow_m3s"@) == "Diverted inflow received (nullable)"@,
        variables::hydros_description("diverted_outflow_m3s"@) == "Diverted outflow sent (nullable)"@,
        variables::hydros_description("incremental_inflow_m3s"@) == "Incremental (local) inflow"@,
        variables::hydros_description("inflow_m3s"@) == "Total inflow including upstream contributions"@,
        variables::hydros_description("storage_initial_hm3"@) == "Reservoir storage at start of stage"@,
        variables::hydros_description("storage_final_hm3"@) == "Reservoir storage at end of stage"@,
        variables::hydros_description("generation_mw"@) == "Hydro generation"@,
        variables::hydros_description("generation_mwh"@) == "Hydro energy generated"@,
        variables::hydros_description("equivalent_productivity_mw_per_m3s"@) == "Equivalent productivity `ρ_eq` (always populated)"@,
        variables::hydros_description("accumulated_productivity_mw_per_m3s"@) == "Accumulated productivity `ρ_acum` along downstream cascade"@,
        variables::hydros_description("incremental_inflow_energy_mw"@) == "Incremental natural energy inflow (`ρ_acum` · incremental inflow)"@,
        variables::hydros_description("stored_energy_initial_mwh"@) == "Stored energy at start of block"@,
        variables::hydros_description("stored_energy_final_mwh"@) == "Stored energy at end of block"@,
        variables::hydros_description("spillage_cost"@) == "Spillage regularization cost"@,
        variables::hydros_description("water_value_per_hm3"@) == "Marginal water value"@,
        variables::hydros_description("storage_binding_code"@) == "Storage bound binding code"@,
        variables::hydros_description("operative_state_code"@) == "Operative state code"@,
        variables::hydros_description("turbined_slack_m3s"@) == "Turbined minimum slack"@,
        variables::hydros_description("outflow_slack_below_m3s"@) == "Outflow below-minimum slack"@,
        variables::hydros_description("outflow_slack_above_m3s"@) == "Outflow above-maximum slack"@,
        variables::hydros_description("generation_slack_mw"@) == "Generation minimum slack"@,
        variables::hydros_description("storage_violation_below_hm3"@) == "Storage below dead-volume violation"@,
        variables::hydros_description("filling_target_violation_hm3"@) == "Filling target violation"@,
        variables::hydros_description("evaporation_violation_pos_m3s"@) == "Over-evaporation constraint violation"@,
        variables::hydros_description("evaporation_violation_neg_m3s"@) == "Under-evaporation constraint violation"@,
        variables::hydros_description("inflow_nonnegativity_slack_m3s"@) == "Inflow non-negativity slack"@,
        variables::hydros_description("water_withdrawal_violation_pos_m3s"@) == "Over-withdrawal constraint violation"@,
        variables::hydros_description("water_withdrawal_violation_neg_m3s"@) == "Under-withdrawal constraint violation"@,
{
    reveal_strlit("stage_id");
    assert("stage_id"@.len() == 8);
    reveal_strlit("block_id");
    assert("block_id"@.len() == 8);
    reveal_strlit("hydro_id");
    assert("hydro_id"@.len() == 8);
    reveal_strlit("turbined_m3s");
    assert("turbined_m3s"@.len() == 12);
    reveal_strlit("spillage_m3s");
    assert("spillage_m3s"@.len() == 12);
    reveal_strlit("outflow_m3s");
    assert("outflow_m3s"@.len() == 11);
    reveal_strlit("evaporation_m3s");
    assert("evaporation_m3s"@.len() == 15);
    reveal_strlit("diverted_inflow_m3s");
    assert("diverted_inflow_m3s"@.len() == 19);
    reveal_strlit("diverted_outflow_m3s");
    assert("diverted_outflow_m3s"@.len() == 20);
    reveal_strlit("incremental_inflow_m3s");
    assert("incremental_inflow_m3s"@.len() == 22);
    reveal_strlit("inflow_m3s");
    assert("inflow_m3s"@.len() == 10);
    reveal_strlit("storage_initial_hm3");
    assert("storage_initial_hm3"@.len() == 19);
    reveal_strlit("storage_final_hm3");
    assert("storage_final_hm3"@.len() == 17);
    reveal_strlit("generation_mw");
    assert("generation_mw"@.len() == 13);
    reveal_strlit("generation_mwh");
    assert("generation_mwh"@.len() == 14);
    reveal_strlit("equivalent_productivity_mw_per_m3s");
    assert("equivalent_productivity_mw_per_m3s"@.len() == 34);
    reveal_strlit("accumulated_productivity_mw_per_m3s");
    assert("accumulated_productivity_mw_per_m3s"@.len() == 35);
    reveal_strlit("incremental_inflow_energy_mw");
    assert("incremental_inflow_energy_mw"@.len() == 28);
    reveal_strlit("stored_energy_initial_mwh");
    assert("stored_energy_initial_mwh"@.len() == 25);
    reveal_strlit("stored_energy_final_mwh");
    assert("stored_energy_final_mwh"@.len() == 23);
    reveal_strlit("spillage_cost");
    assert("spillage_cost"@.len() == 13);
    reveal_strlit("water_value_per_hm3");
    assert("water_value_per_hm3"@.len() == 19);
    reveal_strlit("storage_binding_code");
    assert("storage_binding_code"@.len() == 20);
    reveal_strlit("operative_state_code");
    assert("operative_state_code"@.len() == 20);
    reveal_strlit("turbined_slack_m3s");
    assert("turbined_slack_m3s"@.len() == 18);
    reveal_strlit("outflow_slack_below_m3s");
    assert("outflow_slack_below_m3s"@.len() == 23);
    reveal_strlit("outflow_slack_above_m3s");
    assert("outflow_slack_above_m3s"@.len() == 23);
    reveal_strlit("generation_slack_mw");
    assert("generation_slack_mw"@.len() == 19);
    reveal_strlit("storage_violation_below_hm3");
    assert("storage_violation_below_hm3"@.len() == 27);
    reveal_strlit("filling_target_violation_hm3");
    assert("filling_target_violation_hm3"@.len() == 28);
    reveal_strlit("evaporation_violation_pos_m3s");
    assert("evaporation_violation_pos_m3s"@.len() == 29);
    reveal_strlit("evaporation_violation_neg_m3s");
    assert("evaporation_violation_neg_m3s"@.len() == 29);
    reveal_strlit("inflow_nonnegativity_slack_m3s");
    assert("inflow_nonnegativity_slack_m3s"@.len() == 30);
    reveal_strlit("water_withdrawal_violation_pos_m3s");
    assert("water_withdrawal_violation_pos_m3s"@.len() == 34);
    reveal_strlit("water_withdrawal_violation_neg_m3s");
    assert("water_withdrawal_violation_neg_m3s"@.len() == 34);
    assert("block_id"@[0] == 'b' && "stage_id"@[0] == 's');
    assert("hydro_id"@[0] == 'h' && "stage_id"@[0] == 's');
    assert("hydro_id"@[0] == 'h' && "block_id"@[0] == 'b');
    assert("spillage_m3s"@[0] == 's' && "turbined_m3s"@[0] == 't');
    assert("storage_initial_hm3"@[0] == 's' && "diverted_inflow_m3s"@[0] == 'd');
    assert("spillage_cost"@[0] == 's' && "generation_mw"@[0] == 'g');
    assert("water_value_per_hm3"@[0] == 'w' && "diverted_inflow_m3s"@[0] == 'd');
    assert("water_value_per_hm3"@[0] == 'w' && "storage_initial_hm3"@[0] == 's');
    assert("storage_binding_code"@[0] == 's' && "diverted_outflow_m3s"@[0] == 'd');
    assert("operative_state_code"@[0] == 'o' && "diverted_outflow_m3s"@[0] == 'd');
    assert("operative_state_code"@[0] == 'o' && "storage_binding_code"@[0] == 's');
    assert("outflow_slack_below_m3s"@[0] == 'o' && "stored_energy_final_mwh"@[0] == 's');
    assert("outflow_slack_above_m3s"@[0] == 'o' && "stored_energy_final_mwh"@[0] == 's');
    assert("outflow_slack_above_m3s"@[14] == 'a' && "outflow_slack_below_m3s"@[14] == 'b');
    assert("generation_slack_mw"@[0] == 'g' && "diverted_inflow_m3s"@[0] == 'd');
    assert("generation_slack_mw"@[0] == 'g' && "storage_initial_hm3"@[0] == 's');
    assert("generation_slack_mw"@[0] == 'g' && "water_value_per_hm3"@[0] == 'w');
    assert("filling_target_violation_hm3"@[0] == 'f' && "incremental_inflow_energy_mw"@[0] == 'i');
    assert("evaporation_violation_neg_m3s"@[22] == 'n' && "evaporation_violation_pos_m3s"@[22] == 'p');
    assert("water_withdrawal_violation_pos_m3s"@[0] == 'w' && "equivalent_productivity_mw_per_m3s"@[0] == 'e');
    assert("water_withdrawal_violation_neg_m3s"@[0] == 'w' && "equivalent_productivity_mw_per_m3s"@[0] == 'e');
    assert("water_withdrawal_violation_neg_m3s"@[27] == 'n' && "water_withdrawal_violation_pos_m3s"@[27] == 'p');
}

/// What the file on hydro plants says of a column goes with the column's name: where the name
/// begins or ends in a word, the description has that word, or one that stands for it.
#[verifier::spinoff_prover]
#[verifier::rlimit(60)]
pub proof fn hydros_say_what_their_names_say(column: Seq<char>)
    requires
        variables::description_of("hydros"@, column) != ""@,
    ensures
        text::ends_in(column, "_mwh"@) ==> text::occurs_in(variables::description_of("hydros"@, column), "energy"@),
        text::ends_in(column, "_cost"@) ==> text::occurs_in(variables::description_of("hydros"@, column), "cost"@),
        text::ends_in(column, "_id"@) ==> text::occurs_in(variables::description_of("hydros"@, column), "index"@) || text::occurs_in(variables::description_of("hydros"@, column), "identifier"@),
        text::ends_in(column, "_code"@) ==> text::occurs_in(variables::description_of("hydros"@, column), "code"@),
        text::ends_in(column, "_neg_m3s"@) ==> text::occurs_in(variables::description_of("hydros"@, column), "Under-"@),
        text::ends_in(column, "_pos_m3s"@) ==> text::occurs_in(variables::description_of("hydros"@, column), "Over-"@),
        text::ends_in(column, "_initial_hm3"@) ==> text::occurs_in(variables::description_of("hydros"@, column), "start"@),
        text::ends_in(column, "_initial_mwh"@) ==> text::occurs_in(variables::description_of("hydros"@, column), "start"@),
        text::ends_in(column, "_final_hm3"@) ==> text::occurs_in(variables::description_of("hydros"@, column), "end"@),
        text::ends_in(column, "_final_mwh"@) ==> text::occurs_in(variables::description_of("hydros"@, column), "end"@),
        text::ends_in(column, "_above_m3s"@) ==> text::occurs_in(variables::description_of("hydros"@, column), "maximum"@),
        text::ends_in(column, "_below_m3s"@) ==> text::occurs_in(variables::description_of("hydros"@, column), "minimum"@),
        text::occurs_at(column, "evaporation_"@, 0) ==> text::occurs_in(variables::description_of("hydros"@, column), "vaporation"@),
        text::occurs_at(column, "turbined_"@, 0) ==> text::occurs_in(variables::description_of("hydros"@, column), "urbin"@),
        text::occurs_at(column, "outflow_"@, 0) ==> text::occurs_in(variables::description_of("hydros"@, column), "outflow"@) || text::occurs_in(variables::description_of("hydros"@, column), "Outflow"@),
        text::occurs_at(column, "storage_"@, 0) ==> text::occurs_in(variables::description_of("hydros"@, column), "torage"@),
        text::occurs_at(column, "stored_energy_"@, 0) ==> text::occurs_in(variables::description_of("hydros"@, column), "Stored energy"@),
        text::occurs_at(column, "spillage_"@, 0) ==> text::occurs_in(variables::description_of("hydros"@, column), "pill"@),
        text::occurs_at(column, "generation_"@, 0) ==> text::occurs_in(variables::description_of("hydros"@, column), "enerat"@),
        text::occurs_at(column, "hydro_"@, 0) ==> text::occurs_in(variables::description_of("hydros"@, column), "ydro"@),
        text::occurs_at(column, "inflow_"@, 0) ==> text::occurs_in(variables::description_of("hydros"@, column), "nflow"@),
        text::occurs_at(column, "water_withdrawal_"@, 0) ==> text::occurs_in(variables::description_of("hydros"@, column), "ithdrawal"@),
        text::occurs_at(column, "incremental_"@, 0) ==> text::occurs_in(variables::description_of("hydros"@, column), "Incremental"@),
        text::occurs_at(column, "diverted_"@, 0) ==> text::occurs_in(variables::description_of("hydros"@, column), "Diverted"@),
        text::occurs_at(column, "filling_target_"@, 0) ==> text::occurs_in(variables::description_of("hydros"@, column), "illing"@),
        text::occurs_at(column, "stage"@, 0) ==> text::occurs_in(variables::description_of("hydros"@, column), "Stage"@),
        text::occurs_at(column, "block_"@, 0) ==> text::occurs_in(variables::description_of("hydros"@, column), "Block"@),
        text::occurs_at(column, "accumulated_"@, 0) ==> text::occurs_in(variables::description_of("hydros"@, column), "Accumulated"@),
        text::occurs_at(column, "equivalent_"@, 0) ==> text::occurs_in(variables::description_of("hydros"@, column), "Equivalent"@),
        text::occurs_at(column, "water_value_"@, 0) ==> text::occurs_in(variables::description_of("hydros"@, column), "water value"@),
        text::occurs_at(column, "operative_"@, 0) ==> text::occurs_in(variables::description_of("hydros"@, column), "Operative"@),
{
    files_are_apart();
    let d = variables::description_of("hydros"@, column);
    assert(d == variables::hydros_description(column));
    ends_in_mwh(column);
    ends_in_cost(column);
    ends_in_id(column);
    ends_in_code(column);
    ends_in_neg_m3s(column);
    ends_in_pos_m3s(column);
    ends_in_initial_hm3(column);
    ends_in_initial_mwh(column);
    ends_in_final_hm3(column);
    ends_in_final_mwh(column);
    ends_in_above_m3s(column);
    ends_in_below_m3s(column);
    begins_with_evaporation_(column);
    begins_with_turbined_(column);
    begins_with_outflow_(column);
    begins_with_storage_(column);
    begins_with_stored_energy_(column);
    begins_with_spillage_(column);
    begins_with_generation_(column);
    begins_with_hydro_(column);
    begins_with_inflow_(column);
    begins_with_water_withdrawal_(column);
    begins_with_incremental_(column);
    begins_with_diverted_(column);
    begins_with_filling_target_(column);
    begins_with_stage(column);
    begins_with_block_(column);
    begins_with_accumulated_(column);
    begins_with_equivalent_(column);
    begins_with_water_value_(column);
    begins_with_operative_(column);
    hydros_are_described();
    if column == "stage_id"@ {
        reveal_strlit("stage_id");
        reveal_strlit("Stage index");
        assert(column.len() == 8);
        assert(d == "Stage index"@);
        reveal_strlit("index");
        assert(d.subrange(6, 11) =~= "index"@);
        has(d, "index"@, 6);
        reveal_strlit("Stage");
        assert(d.subrange(0, 5) =~= "Stage"@);
        has(d, "Stage"@, 0);
        assert(hydros_fit(column, d));
    }
    if column == "block_id"@ {
        reveal_strlit("block_id");
        reveal_strlit("Block index within stage (nullable)");
        assert(column.len() == 8);
        assert(d == "Block index within stage (nullable)"@);
        reveal_strlit("index");
        assert(d.subrange(6, 11) =~= "index"@);
        has(d, "index"@, 6);
        reveal_strlit("Block");
        assert(d.subrange(0, 5) =~= "Block"@);
        has(d, "Block"@, 0);
        assert(hydros_fit(column, d));
    }
    if column == "hydro_id"@ {
        reveal_strlit("hydro_id");
        reveal_strlit("Hydro plant identifier");
        assert(column.len() == 8);
        assert(d == "Hydro plant identifier"@);
        reveal_strlit("identifier");
        assert(d.subrange(12, 22) =~= "identifier"@);
        has(d, "identifier"@, 12);
        reveal_strlit("ydro");
        assert(d.subrange(1, 5) =~= "ydro"@);
        has(d, "ydro"@, 1);
        assert(hydros_fit(column, d));
    }
    if column == "turbined_m3s"@ {
        reveal_strlit("turbined_m3s");
        reveal_strlit("Turbined flow");
        assert(column.len() == 12);
        assert(d == "Turbined flow"@);
        reveal_strlit("urbin");
        assert(d.subrange(1, 6) =~= "urbin"@);
        has(d, "urbin"@, 1);
        assert(hydros_fit(column, d));
    }
    if column == "spillage_m3s"@ {
        reveal_strlit("spillage_m3s");
        reveal_strlit("Spilled flow");
        assert(column.len() == 12);
        assert(d == "Spilled flow"@);
        reveal_strlit("pill");
        assert(d.subrange(1, 5) =~= "pill"@);
        has(d, "pill"@, 1);
        assert(hydros_fit(column, d));
    }
    if column == "outflow_m3s"@ {
        reveal_strlit("outflow_m3s");
        reveal_strlit("Total outflow (turbined + spilled)");
        assert(column.len() == 11);
        assert(d == "Total outflow (turbined + spilled)"@);
        reveal_strlit("outflow");
        assert(d.subrange(6, 13) =~= "outflow"@);
        has(d, "outflow"@, 6);
        assert(hydros_fit(column, d));
    }
    if column == "evaporation_m3s"@ {
        reveal_strlit("evaporation_m3s");
        reveal_strlit("Evaporation loss (nullable)");
        assert(column.len() == 15);
        assert(d == "Evaporation loss (nullable)"@);
        reveal_strlit("vaporation");
        assert(d.subrange(1, 11) =~= "vaporation"@);
        has(d, "vaporation"@, 1);
        assert(hydros_fit(column, d));
    }
    if column == "diverted_inflow_m3s"@ {
        reveal_strlit("diverted_inflow_m3s");
        reveal_strlit("Diverted inflow received (nullable)");
        assert(column.len() == 19);
        assert(d == "Diverted inflow received (nullable)"@);
        reveal_strlit("Diverted");
        assert(d.subrange(0, 8) =~= "Diverted"@);
        has(d, "Diverted"@, 0);
        assert(hydros_fit(column, d));
    }
    if column == "diverted_outflow_m3s"@ {
        reveal_strlit("diverted_outflow_m3s");
        reveal_strlit("Diverted outflow sent (nullable)");
        assert(column.len() == 20);
        assert(d == "Diverted outflow sent (nullable)"@);
        reveal_strlit("Diverted");
        assert(d.subrange(0, 8) =~= "Diverted"@);
        has(d, "Diverted"@, 0);
        assert(hydros_fit(column, d));
    }
    if column == "incremental_inflow_m3s"@ {
        reveal_strlit("incremental_inflow_m3s");
        reveal_strlit("Incremental (local) inflow");
        assert(column.len() == 22);
        assert(d == "Incremental (local) inflow"@);
        reveal_strlit("Incremental");
        assert(d.subrange(0, 11) =~= "Incremental"@);
        has(d, "Incremental"@, 0);
        assert(hydros_fit(column, d));
    }
    if column == "inflow_m3s"@ {
        reveal_strlit("inflow_m3s");
        reveal_strlit("Total inflow including upstream contributions");
        assert(column.len() == 10);
        assert(d == "Total inflow including upstream contributions"@);
        reveal_strlit("nflow");
        assert(d.subrange(7, 12) =~= "nflow"@);
        has(d, "nflow"@, 7);
        assert(hydros_fit(column, d));
    }
    if column == "storage_initial_hm3"@ {
        reveal_strlit("storage_initial_hm3");
        reveal_strlit("Reservoir storage at start of stage");
        assert(column.len() == 19);
        assert(d == "Reservoir storage at start of stage"@);
        reveal_strlit("start");
        assert(d.subrange(21, 26) =~= "start"@);
        has(d, "start"@, 21);
        reveal_strlit("torage");
        assert(d.subrange(11, 17) =~= "torage"@);
        has(d, "torage"@, 11);
        assert(hydros_fit(column, d));
    }
    if column == "storage_final_hm3"@ {
        reveal_strlit("storage_final_hm3");
        reveal_strlit("Reservoir storage at end of stage");
        assert(column.len() == 17);
        assert(d == "Reservoir storage at end of stage"@);
        reveal_strlit("end");
        assert(d.subrange(21, 24) =~= "end"@);
        has(d, "end"@, 21);
        reveal_strlit("torage");
        assert(d.subrange(11, 17) =~= "torage"@);
        has(d, "torage"@, 11);
        assert(hydros_fit(column, d));
    }
    if column == "generation_mw"@ {
        reveal_strlit("generation_mw");
        reveal_strlit("Hydro generation");
        assert(column.len() == 13);
        assert(d == "Hydro generation"@);
        reveal_strlit("enerat");
        assert(d.subrange(7, 13) =~= "enerat"@);
        has(d, "enerat"@, 7);
        assert(hydros_fit(column, d));
    }
    if column == "generation_mwh"@ {
        reveal_strlit("generation_mwh");
        reveal_strlit("Hydro energy generated");
        assert(column.len() == 14);
        assert(d == "Hydro energy generated"@);
        reveal_strlit("energy");
        assert(d.subrange(6, 12) =~= "energy"@);
        has(d, "energy"@, 6);
        reveal_strlit("enerat");
        assert(d.subrange(14, 20) =~= "enerat"@);
        has(d, "enerat"@, 14);
        assert(hydros_fit(column, d));
    }
    if column == "equivalent_productivity_mw_per_m3s"@ {
        reveal_strlit("equivalent_productivity_mw_per_m3s");
        reveal_strlit("Equivalent productivity `ρ_eq` (always populated)");
        assert(column.len() == 34);
        assert(d == "Equivalent productivity `ρ_eq` (always populated)"@);
        reveal_strlit("Equivalent");
        assert(d.subrange(0, 10) =~= "Equivalent"@);
        has(d, "Equivalent"@, 0);
        assert(hydros_fit(column, d));
    }
    if column == "accumulated_productivity_mw_per_m3s"@ {
        reveal_strlit("accumulated_productivity_mw_per_m3s");
        reveal_strlit("Accumulated productivity `ρ_acum` along downstream cascade");
        assert(column.len() == 35);
        assert(d == "Accumulated productivity `ρ_acum` along downstream cascade"@);
        reveal_strlit("Accumulated");
        assert(d.subrange(0, 11) =~= "Accumulated"@);
        has(d, "Accumulated"@, 0);
        assert(hydros_fit(column, d));
    }
    if column == "incremental_inflow_energy_mw"@ {
        reveal_strlit("incremental_inflow_energy_mw");
        reveal_strlit("Incremental natural energy inflow (`ρ_acum` · incremental inflow)");
        assert(column.len() == 28);
        assert(d == "Incremental natural energy inflow (`ρ_acum` · incremental inflow)"@);
        reveal_strlit("Incremental");
        assert(d.subrange(0, 11) =~= "Incremental"@);
        has(d, "Incremental"@, 0);
        assert(hydros_fit(column, d));
    }
    if column == "stored_energy_initial_mwh"@ {
        reveal_strlit("stored_energy_initial_mwh");
        reveal_strlit("Stored energy at start of block");
        assert(column.len() == 25);
        assert(d == "Stored energy at start of block"@);
        reveal_strlit("energy");
        assert(d.subrange(7, 13) =~= "energy"@);
        has(d, "energy"@, 7);
        reveal_strlit("start");
        assert(d.subrange(17, 22) =~= "start"@);
        has(d, "start"@, 17);
        reveal_strlit("Stored energy");
        assert(d.subrange(0, 13) =~= "Stored energy"@);
        has(d, "Stored energy"@, 0);
        assert(hydros_fit(column, d));
    }
    if column == "stored_energy_final_mwh"@ {
        reveal_strlit("stored_energy_final_mwh");
        reveal_strlit("Stored energy at end of block");
        assert(column.len() == 23);
        assert(d == "Stored energy at end of block"@);
        reveal_strlit("energy");
        assert(d.subrange(7, 13) =~= "energy"@);
        has(d, "energy"@, 7);
        reveal_strlit("end");
        assert(d.subrange(17, 20) =~= "end"@);
        has(d, "end"@, 17);
        reveal_strlit("Stored energy");
        assert(d.subrange(0, 13) =~= "Stored energy"@);
        has(d, "Stored energy"@, 0);
        assert(hydros_fit(column, d));
    }
    if column == "spillage_cost"@ {
        reveal_strlit("spillage_cost");
        reveal_strlit("Spillage regularization cost");
        assert(column.len() == 13);
        assert(d == "Spillage regularization cost"@);
        reveal_strlit("cost");
        assert(d.subrange(24, 28) =~= "cost"@);
        has(d, "cost"@, 24);
        reveal_strlit("pill");
        assert(d.subrange(1, 5) =~= "pill"@);
        has(d, "pill"@, 1);
        assert(hydros_fit(column, d));
    }
    if column == "water_value_per_hm3"@ {
        reveal_strlit("water_value_per_hm3");
        reveal_strlit("Marginal water value");
        assert(column.len() == 19);
        assert(d == "Marginal water value"@);
        reveal_strlit("water value");
        assert(d.subrange(9, 20) =~= "water value"@);
        has(d, "water value"@, 9);
        assert(hydros_fit(column, d));
    }
    if column == "storage_binding_code"@ {
        reveal_strlit("storage_binding_code");
        reveal_strlit("Storage bound binding code");
        assert(column.len() == 20);
        assert(d == "Storage bound binding code"@);
        reveal_strlit("code");
        assert(d.subrange(22, 26) =~= "code"@);
        has(d, "code"@, 22);
        reveal_strlit("torage");
        assert(d.subrange(1, 7) =~= "torage"@);
        has(d, "torage"@, 1);
        assert(hydros_fit(column, d));
    }
    if column == "operative_state_code"@ {
        reveal_strlit("operative_state_code");
        reveal_strlit("Operative state code");
        assert(column.len() == 20);
        assert(d == "Operative state code"@);
        reveal_strlit("code");
        assert(d.subrange(16, 20) =~= "code"@);
        has(d, "code"@, 16);
        reveal_strlit("Operative");
        assert(d.subrange(0, 9) =~= "Operative"@);
        has(d, "Operative"@, 0);
        assert(hydros_fit(column, d));
    }
    if column == "turbined_slack_m3s"@ {
        reveal_strlit("turbined_slack_m3s");
        reveal_strlit("Turbined minimum slack");
        assert(column.len() == 18);
        assert(d == "Turbined minimum slack"@);
        reveal_strlit("urbin");
        assert(d.subrange(1, 6) =~= "urbin"@);
        has(d, "urbin"@, 1);
        assert(hydros_fit(column, d));
    }
    if column == "outflow_slack_below_m3s"@ {
        reveal_strlit("outflow_slack_below_m3s");
        reveal_strlit("Outflow below-minimum slack");
        assert(column.len() == 23);
        assert(d == "Outflow below-minimum slack"@);
        reveal_strlit("minimum");
        assert(d.subrange(14, 21) =~= "minimum"@);
        has(d, "minimum"@, 14);
        reveal_strlit("Outflow");
        assert(d.subrange(0, 7) =~= "Outflow"@);
        has(d, "Outflow"@, 0);
        assert(hydros_fit(column, d));
    }
    if column == "outflow_slack_above_m3s"@ {
        reveal_strlit("outflow_slack_above_m3s");
        reveal_strlit("Outflow above-maximum slack");
        assert(column.len() == 23);
        assert(d == "Outflow above-maximum slack"@);
        reveal_strlit("maximum");
        assert(d.subrange(14, 21) =~= "maximum"@);
        has(d, "maximum"@, 14);
        reveal_strlit("Outflow");
        assert(d.subrange(0, 7) =~= "Outflow"@);
        has(d, "Outflow"@, 0);
        assert(hydros_fit(column, d));
    }
    if column == "generation_slack_mw"@ {
        reveal_strlit("generation_slack_mw");
        reveal_strlit("Generation minimum slack");
        assert(column.len() == 19);
        assert(d == "Generation minimum slack"@);
        reveal_strlit("enerat");
        assert(d.subrange(1, 7) =~= "enerat"@);
        has(d, "enerat"@, 1);
        assert(hydros_fit(column, d));
    }
    if column == "storage_violation_below_hm3"@ {
        reveal_strlit("storage_violation_below_hm3");
        reveal_strlit("Storage below dead-volume violation");
        assert(column.len() == 27);
        assert(d == "Storage below dead-volume violation"@);
        reveal_strlit("torage");
        assert(d.subrange(1, 7) =~= "torage"@);
        has(d, "torage"@, 1);
        assert(hydros_fit(column, d));
    }
    if column == "filling_target_violation_hm3"@ {
        reveal_strlit("filling_target_violation_hm3");
        reveal_strlit("Filling target violation");
        assert(column.len() == 28);
        assert(d == "Filling target violation"@);
        reveal_strlit("illing");
        assert(d.subrange(1, 7) =~= "illing"@);
        has(d, "illing"@, 1);
        assert(hydros_fit(column, d));
    }
    if column == "evaporation_violation_pos_m3s"@ {
        reveal_strlit("evaporation_violation_pos_m3s");
        reveal_strlit("Over-evaporation constraint violation");
        assert(column.len() == 29);
        assert(d == "Over-evaporation constraint violation"@);
        reveal_strlit("Over-");
        assert(d.subrange(0, 5) =~= "Over-"@);
        has(d, "Over-"@, 0);
        reveal_strlit("vaporation");
        assert(d.subrange(6, 16) =~= "vaporation"@);
        has(d, "vaporation"@, 6);
        assert(hydros_fit(column, d));
    }
    if column == "evaporation_violation_neg_m3s"@ {
        reveal_strlit("evaporation_violation_neg_m3s");
        reveal_strlit("Under-evaporation constraint violation");
        assert(column.len() == 29);
        assert(d == "Under-evaporation constraint violation"@);
        reveal_strlit("Under-");
        assert(d.subrange(0, 6) =~= "Under-"@);
        has(d, "Under-"@, 0);
        reveal_strlit("vaporation");
        assert(d.subrange(7, 17) =~= "vaporation"@);
        has(d, "vaporation"@, 7);
        assert(hydros_fit(column, d));
    }
    if column == "inflow_nonnegativity_slack_m3s"@ {
        reveal_strlit("inflow_nonnegativity_slack_m3s");
        reveal_strlit("Inflow non-negativity slack");
        assert(column.len() == 30);
        assert(d == "Inflow non-negativity slack"@);
        reveal_strlit("nflow");
        assert(d.subrange(1, 6) =~= "nflow"@);
        has(d, "nflow"@, 1);
        assert(hydros_fit(column, d));
    }
    if column == "water_withdrawal_violation_pos_m3s"@ {
        reveal_strlit("water_withdrawal_violation_pos_m3s");
        reveal_strlit("Over-withdrawal constraint violation");
        assert(column.len() == 34);
        assert(d == "Over-withdrawal constraint violation"@);
        reveal_strlit("Over-");
        assert(d.subrange(0, 5) =~= "Over-"@);
        has(d, "Over-"@, 0);
        reveal_strlit("ithdrawal");
        assert(d.subrange(6, 15) =~= "ithdrawal"@);
        has(d, "ithdrawal"@, 6);
        assert(hydros_fit(column, d));
    }
    if column == "water_withdrawal_violation_neg_m3s"@ {
        reveal_strlit("water_withdrawal_violation_neg_m3s");
        reveal_strlit("Under-withdrawal constraint violation");
        assert(column.len() == 34);
        assert(d == "Under-withdrawal constraint violation"@);
        reveal_strlit("Under-");
        assert(d.subrange(0, 6) =~= "Under-"@);
        has(d, "Under-"@, 0);
        reveal_strlit("ithdrawal");
        assert(d.subrange(7, 16) =~= "ithdrawal"@);
        has(d, "ithdrawal"@, 7);
        assert(hydros_fit(column, d));
    }
}

spec fn thermals_fit(column: Seq<char>, d: Seq<char>) -> bool {
    &&& text::ends_in(column, "_mwh"@) ==> text::occurs_in(d, "energy"@)
    &&& text::ends_in(column, "_cost"@) ==> text::occurs_in(d, "cost"@)
    &&& text::ends_in(column, "_id"@) ==> text::occurs_in(d, "index"@) || text::occurs_in(d, "identifier"@)
    &&& text::ends_in(column, "_code"@) ==> text::occurs_in(d, "code"@)
    &&& text::occurs_at(column, "thermal_"@, 0) ==> text::occurs_in(d, "hermal"@)
    &&& text::occurs_at(column, "generation_"@, 0) ==> text::occurs_in(d, "enerat"@)
    &&& text::occurs_at(column, "anticipated_"@, 0) ==> text::occurs_in(d, "nticipated"@)
    &&& text::occurs_at(column, "stage"@, 0) ==> text::occurs_in(d, "Stage"@)
    &&& text::occurs_at(column, "block_"@, 0) ==> text::occurs_in(d, "Block"@)
    &&& text::occurs_at(column, "operative_"@, 0) ==> text::occurs_in(d, "Operative"@)
    &&& text::occurs_at(column, "is_anticipated"@, 0) ==> text::occurs_in(d, "anticipated"@)
}

#[verifier::spinoff_prover]
#[verifier::rlimit(60)]
proof fn thermals_are_described()
    ensures
        variables::thermals_description("stage_id"@) == "Stage index"@,
        variables::thermals_description("block_id"@) == "Block index within stage (nullable)"@,
        variables::thermals_description("thermal_id"@) == "Thermal plant identifier"@,
        variables::thermals_description("generation_mw"@) == "Thermal generation"@,
        variables::thermals_description("generation_mwh"@) == "Thermal energy generated"@,
        variables::thermals_description("generation_cost"@) == "Thermal generation cost"@,
        variables::thermals_description("is_anticipated"@) == "Whether plant uses anticipated dispatch"@,
        variables::thermals_description("anticipated_committed_mw"@) == "Anticipated committed capacity (nullable)"@,
        variables::thermals_description("anticipated_decision_mw"@) == "Anticipated dispatch decision (nullable)"@,
        variables::thermals_description("operative_state_code"@) == "Operative state code"@,
{
    reveal_strlit("stage_id");
    assert("stage_id"@.len() == 8);
    reveal_strlit("block_id");
    assert("block_id"@.len() == 8);
    reveal_strlit("thermal_id");
    assert("thermal_id"@.len() == 10);
    reveal_strlit("generation_mw");
    assert("generation_mw"@.len() == 13);
    reveal_strlit("generation_mwh");
    assert("generation_mwh"@.len() == 14);
    reveal_strlit("generation_cost");
    assert("generation_cost"@.len() == 15);
    reveal_strlit("is_anticipated");
    assert("is_anticipated"@.len() == 14);
    reveal_strlit("anticipated_committed_mw");
    assert("anticipated_committed_mw"@.len() == 24);
    reveal_strlit("anticipated_decision_mw");
    assert("anticipated_decision_mw"@.len() == 23);
    reveal_strlit("operative_state_code");
    assert("operative_state_code"@.len() == 20);
    assert("block_id"@[0] == 'b' && "stage_id"@[0] == 's');
    assert("is_anticipated"@[0] == 'i' && "generation_mwh"@[0] == 'g');
}

/// What the file on thermal plants says of a column goes with the column's name: where the name
/// begins or ends in a word, the description has that word, or one that stands for it.
#[verifier::spinoff_prover]
#[verifier::rlimit(60)]
pub proof fn thermals_say_what_their_names_say(column: Seq<char>)
    requires
        variables::description_of("thermals"@, column) != ""@,
    ensures
        text::ends_in(column, "_mwh"@) ==> text::occurs_in(variables::description_of("thermals"@, column), "energy"@),
        text::ends_in(column, "_cost"@) ==> text::occurs_in(variables::description_of("thermals"@, column), "cost"@),
        text::ends_in(column, "_id"@) ==> text::occurs_in(variables::description_of("thermals"@, column), "index"@) || text::occurs_in(variables::description_of("thermals"@, column), "identifier"@),
        text::ends_in(column, "_code"@) ==> text::occurs_in(variables::description_of("thermals"@, column), "code"@),
        text::occurs_at(column, "thermal_"@, 0) ==> text::occurs_in(variables::description_of("thermals"@, column), "hermal"@),
        text::occurs_at(column, "generation_"@, 0) ==> text::occurs_in(variables::description_of("thermals"@, column), "enerat"@),
        text::occurs_at(column, "anticipated_"@, 0) ==> text::occurs_in(variables::description_of("thermals"@, column), "nticipated"@),
        text::occurs_at(column, "stage"@, 0) ==> text::occurs_in(variables::description_of("thermals"@, column), "Stage"@),
        text::occurs_at(column, "block_"@, 0) ==> text::occurs_in(variables::description_of("thermals"@, column), "Block"@),
        text::occurs_at(column, "operative_"@, 0) ==> text::occurs_in(variables::description_of("thermals"@, column), "Operative"@),
        text::occurs_at(column, "is_anticipated"@, 0) ==> text::occurs_in(variables::description_of("thermals"@, column), "anticipated"@),
{
    files_are_apart();
    let d = variables::description_of("thermals"@, column);
    assert(d == variables::thermals_description(column));
    ends_in_mwh(column);
    ends_in_cost(column);
    ends_in_id(column);
    ends_in_code(column);
    begins_with_thermal_(column);
    begins_with_generation_(column);
    begins_with_anticipated_(column);
    begins_with_stage(column);
    begins_with_block_(column);
    begins_with_operative_(column);
    begins_with_is_anticipated(column);
    thermals_are_described();
    if column == "stage_id"@ {
        reveal_strlit("stage_id");
        reveal_strlit("Stage index");
        assert(column.len() == 8);
        assert(d == "Stage index"@);
        reveal_strlit("index");
        assert(d.subrange(6, 11) =~= "index"@);
        has(d, "index"@, 6);
        reveal_strlit("Stage");
        assert(d.subrange(0, 5) =~= "Stage"@);
        has(d, "Stage"@, 0);
        assert(thermals_fit(column, d));
    }
    if column == "block_id"@ {
        reveal_strlit("block_id");
        reveal_strlit("Block index within stage (nullable)");
        assert(column.len() == 8);
        assert(d == "Block index within stage (nullable)"@);
        reveal_strlit("index");
        assert(d.subrange(6, 11) =~= "index"@);
        has(d, "index"@, 6);
        reveal_strlit("Block");
        assert(d.subrange(0, 5) =~= "Block"@);
        has(d, "Block"@, 0);
        assert(thermals_fit(column, d));
    }
    if column == "thermal_id"@ {
        reveal_strlit("thermal_id");
        reveal_strlit("Thermal plant identifier");
        assert(column.len() == 10);
        assert(d == "Thermal plant identifier"@);
        reveal_strlit("identifier");
        assert(d.subrange(14, 24) =~= "identifier"@);
        has(d, "identifier"@, 14);
        reveal_strlit("hermal");
        assert(d.subrange(1, 7) =~= "hermal"@);
        has(d, "hermal"@, 1);
        assert(thermals_fit(column, d));
    }
    if column == "generation_mw"@ {
        reveal_strlit("generation_mw");
        reveal_strlit("Thermal generation");
        assert(column.len() == 13);
        assert(d == "Thermal generation"@);
        reveal_strlit("enerat");
        assert(d.subrange(9, 15) =~= "enerat"@);
        has(d, "enerat"@, 9);
        assert(thermals_fit(column, d));
    }
    if column == "generation_mwh"@ {
        reveal_strlit("generation_mwh");
        reveal_strlit("Thermal energy generated");
        assert(column.len() == 14);
        assert(d == "Thermal energy generated"@);
        reveal_strlit("energy");
        assert(d.subrange(8, 14) =~= "energy"@);
        has(d, "energy"@, 8);
        reveal_strlit("enerat");
        assert(d.subrange(16, 22) =~= "enerat"@);
        has(d, "enerat"@, 16);
        assert(thermals_fit(column, d));
    }
    if column == "generation_cost"@ {
        reveal_strlit("generation_cost");
        reveal_strlit("Thermal generation cost");
        assert(column.len() == 15);
        assert(d == "Thermal generation cost"@);
        reveal_strlit("cost");
        assert(d.subrange(19, 23) =~= "cost"@);
        has(d, "cost"@, 19);
        reveal_strlit("enerat");
        assert(d.subrange(9, 15) =~= "enerat"@);
        has(d, "enerat"@, 9);
        assert(thermals_fit(column, d));
    }
    if column == "is_anticipated"@ {
        reveal_strlit("is_anticipated");
        reveal_strlit("Whether plant uses anticipated dispatch");
        assert(column.len() == 14);
        assert(d == "Whether plant uses anticipated dispatch"@);
        reveal_strlit("anticipated");
        assert(d.subrange(19, 30) =~= "anticipated"@);
        has(d, "anticipated"@, 19);
        assert(thermals_fit(column, d));
    }
    if column == "anticipated_committed_mw"@ {
        reveal_strlit("anticipated_committed_mw");
        reveal_strlit("Anticipated committed capacity (nullable)");
        assert(column.len() == 24);
        assert(d == "Anticipated committed capacity (nullable)"@);
        reveal_strlit("nticipated");
        assert(d.subrange(1, 11) =~= "nticipated"@);
        has(d, "nticipated"@, 1);
        assert(thermals_fit(column, d));
    }
    if column == "anticipated_decision_mw"@ {
        reveal_strlit("anticipated_decision_mw");
        reveal_strlit("Anticipated dispatch decision (nullable)");
        assert(column.len() == 23);
        assert(d == "Anticipated dispatch decision (nullable)"@);
        reveal_strlit("nticipated");
        assert(d.subrange(1, 11) =~= "nticipated"@);
        has(d, "nticipated"@, 1);
        assert(thermals_fit(column, d));
    }
    if column == "operative_state_code"@ {
        reveal_strlit("operative_state_code");
        reveal_strlit("Operative state code");
        assert(column.len() == 20);
        assert(d == "Operative state code"@);
        reveal_strlit("code");
        assert(d.subrange(16, 20) =~= "code"@);
        has(d, "code"@, 16);
        reveal_strlit("Operative");
        assert(d.subrange(0, 9) =~= "Operative"@);
        has(d, "Operative"@, 0);
        assert(thermals_fit(column, d));
    }
}

spec fn exchanges_fit(column: Seq<char>, d: Seq<char>) -> bool {
    &&& text::ends_in(column, "_mwh"@) ==> text::occurs_in(d, "energy"@)
    &&& text::ends_in(column, "_cost"@) ==> text::occurs_in(d, "cost"@)
    &&& text::ends_in(column, "_id"@) ==> text::occurs_in(d, "index"@) || text::occurs_in(d, "identifier"@)
    &&& text::ends_in(column, "_code"@) ==> text::occurs_in(d, "code"@)
    &&& text::occurs_at(column, "losses_"@, 0) ==> text::occurs_in(d, "losses"@)
    &&& text::occurs_at(column, "net_flow_"@, 0) ==> text::occurs_in(d, "Net"@)
    &&& text::occurs_at(column, "exchange_"@, 0) ==> text::occurs_in(d, "xchange"@)
    &&& text::occurs_at(column, "direct_"@, 0) ==> text::occurs_in(d, "direct"@)
    &&& text::occurs_at(column, "reverse_"@, 0) ==> text::occurs_in(d, "reverse"@)
    &&& text::occurs_at(column, "stage"@, 0) ==> text::occurs_in(d, "Stage"@)
    &&& text::occurs_at(column, "block_"@, 0) ==> text::occurs_in(d, "Block"@)
    &&& text::occurs_at(column, "line_"@, 0) ==> text::occurs_in(d, "line"@)
    &&& text::occurs_at(column, "operative_"@, 0) ==> text::occurs_in(d, "Operative"@)
}

#[verifier::spinoff_prover]
#[verifier::rlimit(60)]
proof fn exchanges_are_described()
    ensures
        variables::exchanges_description("stage_id"@) == "Stage index"@,
        variables::exchanges_description("block_id"@) == "Block index within stage (nullable)"@,
        variables::exchanges_description("line_id"@) == "Transmission line identifier"@,
        variables::exchanges_description("direct_flow_mw"@) == "Flow in direct direction"@,
        variables::exchanges_description("reverse_flow_mw"@) == "Flow in reverse direction"@,
        variables::exchanges_description("net_flow_mw"@) == "Net flow (direct minus reverse)"@,
        variables::exchanges_description("net_flow_mwh"@) == "Net energy exchanged"@,
        variables::exchanges_description("losses_mw"@) == "Transmission losses"@,
        variables::exchanges_description("losses_mwh"@) == "Transmission energy losses"@,
        variables::exchanges_description("exchange_cost"@) == "Exchange regularization cost"@,
        variables::exchanges_description("operative_state_code"@) == "Operative state code"@,
{
    reveal_strlit("stage_id");
    assert("stage_id"@.len() == 8);
    reveal_strlit("block_id");
    assert("block_id"@.len() == 8);
    reveal_strlit("line_id");
    assert("line_id"@.len() == 7);
    reveal_strlit("direct_flow_mw");
    assert("direct_flow_mw"@.len() == 14);
    reveal_strlit("reverse_flow_mw");
    assert("reverse_flow_mw"@.len() == 15);
    reveal_strlit("net_flow_mw");
    assert("net_flow_mw"@.len() == 11);
    reveal_strlit("net_flow_mwh");
    assert("net_flow_mwh"@.len() == 12);
    reveal_strlit("losses_mw");
    assert("losses_mw"@.len() == 9);
    reveal_strlit("losses_mwh");
    assert("losses_mwh"@.len() == 10);
    reveal_strlit("exchange_cost");
    assert("exchange_cost"@.len() == 13);
    reveal_strlit("operative_state_code");
    assert("operative_state_code"@.len() == 20);
    assert("block_id"@[0] == 'b' && "stage_id"@[0] == 's');
}

/// What the file on exchanges says of a column goes with the column's name: where the name
/// begins or ends in a word, the description has that word, or one that stands for it.
#[verifier::spinoff_prover]
#[verifier::rlimit(60)]
pub proof fn exchanges_say_what_their_names_say(column: Seq<char>)
    requires
        variables::description_of("exchanges"@, column) != ""@,
    ensures
        text::ends_in(column, "_mwh"@) ==> text::occurs_in(variables::description_of("exchanges"@, column), "energy"@),
        text::ends_in(column, "_cost"@) ==> text::occurs_in(variables::description_of("exchanges"@, column), "cost"@),
        text::ends_in(column, "_id"@) ==> text::occurs_in(variables::description_of("exchanges"@, column), "index"@) || text::occurs_in(variables::description_of("exchanges"@, column), "identifier"@),
        text::ends_in(column, "_code"@) ==> text::occurs_in(variables::description_of("exchanges"@, column), "code"@),
        text::occurs_at(column, "losses_"@, 0) ==> text::occurs_in(variables::description_of("exchanges"@, column), "losses"@),
        text::occurs_at(column, "net_flow_"@, 0) ==> text::occurs_in(variables::description_of("exchanges"@, column), "Net"@),
        text::occurs_at(column, "exchange_"@, 0) ==> text::occurs_in(variables::description_of("exchanges"@, column), "xchange"@),
        text::occurs_at(column, "direct_"@, 0) ==> text::occurs_in(variables::description_of("exchanges"@, column), "direct"@),
        text::occurs_at(column, "reverse_"@, 0) ==> text::occurs_in(variables::description_of("exchanges"@, column), "reverse"@),
        text::occurs_at(column, "stage"@, 0) ==> text::occurs_in(variables::description_of("exchanges"@, column), "Stage"@),
        text::occurs_at(column, "block_"@, 0) ==> text::occurs_in(variables::description_of("exchanges"@, column), "Block"@),
        text::occurs_at(column, "line_"@, 0) ==> text::occurs_in(variables::description_of("exchanges"@, column), "line"@),
        text::occurs_at(column, "operative_"@, 0) ==> text::occurs_in(variables::description_of("exchanges"@, column), "Operative"@),
{
    files_are_apart();
    let d = variables::description_of("exchanges"@, column);
    assert(d == variables::exchanges_description(column));
    ends_in_mwh(column);
    ends_in_cost(column);
    ends_in_id(column);
    ends_in_code(column);
    begins_with_losses_(column);
    begins_with_net_flow_(column);
    begins_with_exchange_(column);
    begins_with_direct_(column);
    begins_with_reverse_(column);
    begins_with_stage(column);
    begins_with_block_(column);
    begins_with_line_(column);
    begins_with_operative_(column);
    exchanges_are_described();
    if column == "stage_id"@ {
        reveal_strlit("stage_id");
        reveal_strlit("Stage index");
        assert(column.len() == 8);
        assert(d == "Stage index"@);
        reveal_strlit("index");
        assert(d.subrange(6, 11) =~= "index"@);
        has(d, "index"@, 6);
        reveal_strlit("Stage");
        assert(d.subrange(0, 5) =~= "Stage"@);
        has(d, "Stage"@, 0);
        assert(exchanges_fit(column, d));
    }
    if column == "block_id"@ {
        reveal_strlit("block_id");
        reveal_strlit("Block index within stage (nullable)");
        assert(column.len() == 8);
        assert(d == "Block index within stage (nullable)"@);
        reveal_strlit("index");
        assert(d.subrange(6, 11) =~= "index"@);
        has(d, "index"@, 6);
        reveal_strlit("Block");
        assert(d.subrange(0, 5) =~= "Block"@);
        has(d, "Block"@, 0);
        assert(exchanges_fit(column, d));
    }
    if column == "line_id"@ {
        reveal_strlit("line_id");
        reveal_strlit("Transmission line identifier");
        assert(column.len() == 7);
        assert(d == "Transmission line identifier"@);
        reveal_strlit("identifier");
        assert(d.subrange(18, 28) =~= "identifier"@);
        has(d, "identifier"@, 18);
        reveal_strlit("line");
        assert(d.subrange(13, 17) =~= "line"@);
        has(d, "line"@, 13);
        assert(exchanges_fit(column, d));
    }
    if column == "direct_flow_mw"@ {
        reveal_strlit("direct_flow_mw");
        reveal_strlit("Flow in direct direction");
        assert(column.len() == 14);
        assert(d == "Flow in direct direction"@);
        reveal_strlit("direct");
        assert(d.subrange(8, 14) =~= "direct"@);
        has(d, "direct"@, 8);
        assert(exchanges_fit(column, d));
    }
    if column == "reverse_flow_mw"@ {
        reveal_strlit("reverse_flow_mw");
        reveal_strlit("Flow in reverse direction");
        assert(column.len() == 15);
        assert(d == "Flow in reverse direction"@);
        reveal_strlit("reverse");
        assert(d.subrange(8, 15) =~= "reverse"@);
        has(d, "reverse"@, 8);
        assert(exchanges_fit(column, d));
    }
    if column == "net_flow_mw"@ {
        reveal_strlit("net_flow_mw");
        reveal_strlit("Net flow (direct minus reverse)");
        assert(column.len() == 11);
        assert(d == "Net flow (direct minus reverse)"@);
        reveal_strlit("Net");
        assert(d.subrange(0, 3) =~= "Net"@);
        has(d, "Net"@, 0);
        assert(exchanges_fit(column, d));
    }
    if column == "net_flow_mwh"@ {
        reveal_strlit("net_flow_mwh");
        reveal_strlit("Net energy exchanged");
        assert(column.len() == 12);
        assert(d == "Net energy exchanged"@);
        reveal_strlit("energy");
        assert(d.subrange(4, 10) =~= "energy"@);
        has(d, "energy"@, 4);
        reveal_strlit("Net");
        assert(d.subrange(0, 3) =~= "Net"@);
        has(d, "Net"@, 0);
        assert(exchanges_fit(column, d));
    }
    if column == "losses_mw"@ {
        reveal_strlit("losses_mw");
        reveal_strlit("Transmission losses");
        assert(column.len() == 9);
        assert(d == "Transmission losses"@);
        reveal_strlit("losses");
        assert(d.subrange(13, 19) =~= "losses"@);
        has(d, "losses"@, 13);
        assert(exchanges_fit(column, d));
    }
    if column == "losses_mwh"@ {
        reveal_strlit("losses_mwh");
        reveal_strlit("Transmission energy losses");
        assert(column.len() == 10);
        assert(d == "Transmission energy losses"@);
        reveal_strlit("energy");
        assert(d.subrange(13, 19) =~= "energy"@);
        has(d, "energy"@, 13);
        reveal_strlit("losses");
        assert(d.subrange(20, 26) =~= "losses"@);
        has(d, "losses"@, 20);
        assert(exchanges_fit(column, d));
    }
    if column == "exchange_cost"@ {
        reveal_strlit("exchange_cost");
        reveal_strlit("Exchange regularization cost");
        assert(column.len() == 13);
        assert(d == "Exchange regularization cost"@);
        reveal_strlit("cost");
        assert(d.subrange(24, 28) =~= "cost"@);
        has(d, "cost"@, 24);
        reveal_strlit("xchange");
        assert(d.subrange(1, 8) =~= "xchange"@);
        has(d, "xchange"@, 1);
        assert(exchanges_fit(column, d));
    }
    if column == "operative_state_code"@ {
        reveal_strlit("operative_state_code");
        reveal_strlit("Operative state code");
        assert(column.len() == 20);
        assert(d == "Operative state code"@);
        reveal_strlit("code");
        assert(d.subrange(16, 20) =~= "code"@);
        has(d, "code"@, 16);
        reveal_strlit("Operative");
        assert(d.subrange(0, 9) =~= "Operative"@);
        has(d, "Operative"@, 0);
        assert(exchanges_fit(column, d));
    }
}

spec fn buses_fit(column: Seq<char>, d: Seq<char>) -> bool {
    &&& text::ends_in(column, "_mwh"@) ==> text::occurs_in(d, "energy"@)
    &&& text::ends_in(column, "_id"@) ==> text::occurs_in(d, "index"@) || text::occurs_in(d, "identifier"@)
    &&& text::ends_in(column, "_price"@) ==> text::occurs_in(d, "price"@)
    &&& text::occurs_at(column, "deficit_"@, 0) ==> text::occurs_in(d, "deficit"@) || text::occurs_in(d, "Unmet"@)
    &&& text::occurs_at(column, "load_"@, 0) ==> text::occurs_in(d, "Load"@)
    &&& text::occurs_at(column, "excess_"@, 0) ==> text::occurs_in(d, "xcess"@)
    &&& text::occurs_at(column, "stage"@, 0) ==> text::occurs_in(d, "Stage"@)
    &&& text::occurs_at(column, "block_"@, 0) ==> text::occurs_in(d, "Block"@)
    &&& text::occurs_at(column, "bus_"@, 0) ==> text::occurs_in(d, "Bus"@)
    &&& text::occurs_at(column, "spot_"@, 0) ==> text::occurs_in(d, "spot"@)
}

#[verifier::spinoff_prover]
#[verifier::rlimit(60)]
proof fn buses_are_described()
    ensures
        variables::buses_description("stage_id"@) == "Stage index"@,
        variables::buses_description("block_id"@) == "Block index within stage (nullable)"@,
        variables::buses_description("bus_id"@) == "Bus identifier"@,
        variables::buses_description("load_mw"@) == "Load demand"@,
        variables::buses_description("load_mwh"@) == "Load energy demand"@,
        variables::buses_description("deficit_mw"@) == "Unmet demand (deficit)"@,
        variables::buses_description("deficit_mwh"@) == "Unmet energy demand"@,
        variables::buses_description("excess_mw"@) == "Excess generation absorbed"@,
        variables::buses_description("excess_mwh"@) == "Excess energy absorbed"@,
        variables::buses_description("spot_price"@) == "Bus spot price (dual of balance constraint)"@,
{
    reveal_strlit("stage_id");
    assert("stage_id"@.len() == 8);
    reveal_strlit("block_id");
    assert("block_id"@.len() == 8);
    reveal_strlit("bus_id");
    assert("bus_id"@.len() == 6);
    reveal_strlit("load_mw");
    assert("load_mw"@.len() == 7);
    reveal_strlit("load_mwh");
    assert("load_mwh"@.len() == 8);
    reveal_strlit("deficit_mw");
    assert("deficit_mw"@.len() == 10);
    reveal_strlit("deficit_mwh");
    assert("deficit_mwh"@.len() == 11);
    reveal_strlit("excess_mw");
    assert("excess_mw"@.len() == 9);
    reveal_strlit("excess_mwh");
    assert("excess_mwh"@.len() == 10);
    reveal_strlit("spot_price");
    assert("spot_price"@.len() == 10);
    assert("block_id"@[0] == 'b' && "stage_id"@[0] == 's');
    assert("load_mwh"@[0] == 'l' && "stage_id"@[0] == 's');
    assert("load_mwh"@[0] == 'l' && "block_id"@[0] == 'b');
    assert("excess_mwh"@[0] == 'e' && "deficit_mw"@[0] == 'd');
    assert("spot_price"@[0] == 's' && "deficit_mw"@[0] == 'd');
    assert("spot_price"@[0] == 's' && "excess_mwh"@[0] == 'e');
}

/// What the file on buses says of a column goes with the column's name: where the name
/// begins or ends in a word, the description has that word, or one that stands for it.
#[verifier::spinoff_prover]
#[verifier::rlimit(60)]
pub proof fn buses_say_what_their_names_say(column: Seq<char>)
    requires
        variables::description_of("buses"@, column) != ""@,
    ensures
        text::ends_in(column, "_mwh"@) ==> text::occurs_in(variables::description_of("buses"@, column), "energy"@),
        text::ends_in(column, "_id"@) ==> text::occurs_in(variables::description_of("buses"@, column), "index"@) || text::occurs_in(variables::description_of("buses"@, column), "identifier"@),
        text::ends_in(column, "_price"@) ==> text::occurs_in(variables::description_of("buses"@, column), "price"@),
        text::occurs_at(column, "deficit_"@, 0) ==> text::occurs_in(variables::description_of("buses"@, column), "deficit"@) || text::occurs_in(variables::description_of("buses"@, column), "Unmet"@),
        text::occurs_at(column, "load_"@, 0) ==> text::occurs_in(variables::description_of("buses"@, column), "Load"@),
        text::occurs_at(column, "excess_"@, 0) ==> text::occurs_in(variables::description_of("buses"@, column), "xcess"@),
        text::occurs_at(column, "stage"@, 0) ==> text::occurs_in(variables::description_of("buses"@, column), "Stage"@),
        text::occurs_at(column, "block_"@, 0) ==> text::occurs_in(variables::description_of("buses"@, column), "Block"@),
        text::occurs_at(column, "bus_"@, 0) ==> text::occurs_in(variables::description_of("buses"@, column), "Bus"@),
        text::occurs_at(column, "spot_"@, 0) ==> text::occurs_in(variables::description_of("buses"@, column), "spot"@),
{
    files_are_apart();
    let d = variables::description_of("buses"@, column);
    assert(d == variables::buses_description(column));
    ends_in_mwh(column);
    ends_in_id(column);
    ends_in_price(column);
    begins_with_deficit_(column);
    begins_with_load_(column);
    begins_with_excess_(column);
    begins_with_stage(column);
    begins_with_block_(column);
    begins_with_bus_(column);
    begins_with_spot_(column);
    buses_are_described();
    if column == "stage_id"@ {
        reveal_strlit("stage_id");
        reveal_strlit("Stage index");
        assert(column.len() == 8);
        assert(d == "Stage index"@);
        reveal_strlit("index");
        assert(d.subrange(6, 11) =~= "index"@);
        has(d, "index"@, 6);
        reveal_strlit("Stage");
        assert(d.subrange(0, 5) =~= "Stage"@);
        has(d, "Stage"@, 0);
        assert(buses_fit(column, d));
    }
    if column == "block_id"@ {
        reveal_strlit("block_id");
        reveal_strlit("Block index within stage (nullable)");
        assert(column.len() == 8);
        assert(d == "Block index within stage (nullable)"@);
        reveal_strlit("index");
        assert(d.subrange(6, 11) =~= "index"@);
        has(d, "index"@, 6);
        reveal_strlit("Block");
        assert(d.subrange(0, 5) =~= "Block"@);
        has(d, "Block"@, 0);
        assert(buses_fit(column, d));
    }
    if column == "bus_id"@ {
        reveal_strlit("bus_id");
        reveal_strlit("Bus identifier");
        assert(column.len() == 6);
        assert(d == "Bus identifier"@);
        reveal_strlit("identifier");
        assert(d.subrange(4, 14) =~= "identifier"@);
        has(d, "identifier"@, 4);
        reveal_strlit("Bus");
        assert(d.subrange(0, 3) =~= "Bus"@);
        has(d, "Bus"@, 0);
        assert(buses_fit(column, d));
    }
    if column == "load_mw"@ {
        reveal_strlit("load_mw");
        reveal_strlit("Load demand");
        assert(column.len() == 7);
        assert(d == "Load demand"@);
        reveal_strlit("Load");
        assert(d.subrange(0, 4) =~= "Load"@);
        has(d, "Load"@, 0);
        assert(buses_fit(column, d));
    }
    if column == "load_mwh"@ {
        reveal_strlit("load_mwh");
        reveal_strlit("Load energy demand");
        assert(column.len() == 8);
        assert(d == "Load energy demand"@);
        reveal_strlit("energy");
        assert(d.subrange(5, 11) =~= "energy"@);
        has(d, "energy"@, 5);
        reveal_strlit("Load");
        assert(d.subrange(0, 4) =~= "Load"@);
        has(d, "Load"@, 0);
        assert(buses_fit(column, d));
    }
    if column == "deficit_mw"@ {
        reveal_strlit("deficit_mw");
        reveal_strlit("Unmet demand (deficit)");
        assert(column.len() == 10);
        assert(d == "Unmet demand (deficit)"@);
        reveal_strlit("deficit");
        assert(d.subrange(14, 21) =~= "deficit"@);
        has(d, "deficit"@, 14);
        assert(buses_fit(column, d));
    }
    if column == "deficit_mwh"@ {
        reveal_strlit("deficit_mwh");
        reveal_strlit("Unmet energy demand");
        assert(column.len() == 11);
        assert(d == "Unmet energy demand"@);
        reveal_strlit("energy");
        assert(d.subrange(6, 12) =~= "energy"@);
        has(d, "energy"@, 6);
        reveal_strlit("Unmet");
        assert(d.subrange(0, 5) =~= "Unmet"@);
        has(d, "Unmet"@, 0);
        assert(buses_fit(column, d));
    }
    if column == "excess_mw"@ {
        reveal_strlit("excess_mw");
        reveal_strlit("Excess generation absorbed");
        assert(column.len() == 9);
        assert(d == "Excess generation absorbed"@);
        reveal_strlit("xcess");
        assert(d.subrange(1, 6) =~= "xcess"@);
        has(d, "xcess"@, 1);
        assert(buses_fit(column, d));
    }
    if column == "excess_mwh"@ {
        reveal_strlit("excess_mwh");
        reveal_strlit("Excess energy absorbed");
        assert(column.len() == 10);
        assert(d == "Excess energy absorbed"@);
        reveal_strlit("energy");
        assert(d.subrange(7, 13) =~= "energy"@);
        has(d, "energy"@, 7);
        reveal_strlit("xcess");
        assert(d.subrange(1, 6) =~= "xcess"@);
        has(d, "xcess"@, 1);
        assert(buses_fit(column, d));
    }
    if column == "spot_price"@ {
        reveal_strlit("spot_price");
        reveal_strlit("Bus spot price (dual of balance constraint)");
        assert(column.len() == 10);
        assert(d == "Bus spot price (dual of balance constraint)"@);
        reveal_strlit("price");
        assert(d.subrange(9, 14) =~= "price"@);
        has(d, "price"@, 9);
        reveal_strlit("spot");
        assert(d.subrange(4, 8) =~= "spot"@);
        has(d, "spot"@, 4);
        assert(buses_fit(column, d));
    }
}

spec fn pumping_stations_fit(column: Seq<char>, d: Seq<char>) -> bool {
    &&& text::ends_in(column, "_mwh"@) ==> text::occurs_in(d, "energy"@)
    &&& text::ends_in(column, "_cost"@) ==> text::occurs_in(d, "cost"@)
    &&& text::ends_in(column, "_id"@) ==> text::occurs_in(d, "index"@) || text::occurs_in(d, "identifier"@)
    &&& text::ends_in(column, "_code"@) ==> text::occurs_in(d, "code"@)
    &&& text::occurs_at(column, "pumping_"@, 0) ==> text::occurs_in(d, "umping"@)
    &&& text::occurs_at(column, "pumped_"@, 0) ==> text::occurs_in(d, "Pumped"@)
    &&& text::occurs_at(column, "stage"@, 0) ==> text::occurs_in(d, "Stage"@)
    &&& text::occurs_at(column, "block_"@, 0) ==> text::occurs_in(d, "Block"@)
    &&& text::occurs_at(column, "power_"@, 0) ==> text::occurs_in(d, "power"@)
    &&& text::occurs_at(column, "energy_"@, 0) ==> text::occurs_in(d, "energy"@)
    &&& text::occurs_at(column, "operative_"@, 0) ==> text::occurs_in(d, "Operative"@)
}

#[verifier::spinoff_prover]
#[verifier::rlimit(60)]
proof fn pumping_stations_are_described()
    ensures
        variables::pumping_stations_description("stage_id"@) == "Stage index"@,
        variables::pumping_stations_description("block_id"@) == "Block index within stage (nullable)"@,
        variables::pumping_stations_description("pumping_station_id"@) == "Pumping station identifier"@,
        variables::pumping_stations_description("pumped_flow_m3s"@) == "Pumped water flow"@,
        variables::pumping_stations_description("pumped_volume_hm3"@) == "Pumped water volume"@,
        variables::pumping_stations_description("power_consumption_mw"@) == "Electrical power consumed"@,
        variables::pumping_stations_description("energy_consumption_mwh"@) == "Electrical energy consumed"@,
        variables::pumping_stations_description("pumping_cost"@) == "Pumping operation cost"@,
        variables::pumping_stations_description("operative_state_code"@) == "Operative state code"@,
{
    reveal_strlit("stage_id");
    assert("stage_id"@.len() == 8);
    reveal_strlit("block_id");
    assert("block_id"@.len() == 8);
    reveal_strlit("pumping_station_id");
    assert("pumping_station_id"@.len() == 18);
    reveal_strlit("pumped_flow_m3s");
    assert("pumped_flow_m3s"@.len() == 15);
    reveal_strlit("pumped_volume_hm3");
    assert("pumped_volume_hm3"@.len() == 17);
    reveal_strlit("power_consumption_mw");
    assert("power_consumption_mw"@.len() == 20);
    reveal_strlit("energy_consumption_mwh");
    assert("energy_consumption_mwh"@.len() == 22);
    reveal_strlit("pumping_cost");
    assert("pumping_cost"@.len() == 12);
    reveal_strlit("operative_state_code");
    assert("operative_state_code"@.len() == 20);
    assert("block_id"@[0] == 'b' && "stage_id"@[0] == 's');
    assert("operative_state_code"@[0] == 'o' && "power_consumption_mw"@[0] == 'p');
}

/// What the file on pumping stations says of a column goes with the column's name: where the name
/// begins or ends in a word, the description has that word, or one that stands for it.
#[verifier::spinoff_prover]
#[verifier::rlimit(60)]
pub proof fn pumping_stations_say_what_their_names_say(column: Seq<char>)
    requires
        variables::description_of("pumping_stations"@, column) != ""@,
    ensures
        text::ends_in(column, "_mwh"@) ==> text::occurs_in(variables::description_of("pumping_stations"@, column), "energy"@),
        text::ends_in(column, "_cost"@) ==> text::occurs_in(variables::description_of("pumping_stations"@, column), "cost"@),
        text::ends_in(column, "_id"@) ==> text::occurs_in(variables::description_of("pumping_stations"@, column), "index"@) || text::occurs_in(variables::description_of("pumping_stations"@, column), "identifier"@),
        text::ends_in(column, "_code"@) ==> text::occurs_in(variables::description_of("pumping_stations"@, column), "code"@),
        text::occurs_at(column, "pumping_"@, 0) ==> text::occurs_in(variables::description_of("pumping_stations"@, column), "umping"@),
        text::occurs_at(column, "pumped_"@, 0) ==> text::occurs_in(variables::description_of("pumping_stations"@, column), "Pumped"@),
        text::occurs_at(column, "stage"@, 0) ==> text::occurs_in(variables::description_of("pumping_stations"@, column), "Stage"@),
        text::occurs_at(column, "block_"@, 0) ==> text::occurs_in(variables::description_of("pumping_stations"@, column), "Block"@),
        text::occurs_at(column, "power_"@, 0) ==> text::occurs_in(variables::description_of("pumping_stations"@, column), "power"@),
        text::occurs_at(column, "energy_"@, 0) ==> text::occurs_in(variables::description_of("pumping_stations"@, column), "energy"@),
        text::occurs_at(column, "operative_"@, 0) ==> text::occurs_in(variables::description_of("pumping_stations"@, column), "Operative"@),
{
    files_are_apart();
    let d = variables::description_of("pumping_stations"@, column);
    assert(d == variables::pumping_stations_description(column));
    ends_in_mwh(column);
    ends_in_cost(column);
    ends_in_id(column);
    ends_in_code(column);
    begins_with_pumping_(column);
    begins_with_pumped_(column);
    begins_with_stage(column);
    begins_with_block_(column);
    begins_with_power_(column);
    begins_with_energy_(column);
    begins_with_operative_(column);
    pumping_stations_are_described();
    if column == "stage_id"@ {
        reveal_strlit("stage_id");
        reveal_strlit("Stage index");
        assert(column.len() == 8);
        assert(d == "Stage index"@);
        reveal_strlit("index");
        assert(d.subrange(6, 11) =~= "index"@);
        has(d, "index"@, 6);
        reveal_strlit("Stage");
        assert(d.subrange(0, 5) =~= "Stage"@);
        has(d, "Stage"@, 0);
        assert(pumping_stations_fit(column, d));
    }
    if column == "block_id"@ {
        reveal_strlit("block_id");
        reveal_strlit("Block index within stage (nullable)");
        assert(column.len() == 8);
        assert(d == "Block index within stage (nullable)"@);
        reveal_strlit("index");
        assert(d.subrange(6, 11) =~= "index"@);
        has(d, "index"@, 6);
        reveal_strlit("Block");
        assert(d.subrange(0, 5) =~= "Block"@);
        has(d, "Block"@, 0);
        assert(pumping_stations_fit(column, d));
    }
    if column == "pumping_station_id"@ {
        reveal_strlit("pumping_station_id");
        reveal_strlit("Pumping station identifier");
        assert(column.len() == 18);
        assert(d == "Pumping station identifier"@);
        reveal_strlit("identifier");
        assert(d.subrange(16, 26) =~= "identifier"@);
        has(d, "identifier"@, 16);
        reveal_strlit("umping");
        assert(d.subrange(1, 7) =~= "umping"@);
        has(d, "umping"@, 1);
        assert(pumping_stations_fit(column, d));
    }
    if column == "pumped_flow_m3s"@ {
        reveal_strlit("pumped_flow_m3s");
        reveal_strlit("Pumped water flow");
        assert(column.len() == 15);
        assert(d == "Pumped water flow"@);
        reveal_strlit("Pumped");
        assert(d.subrange(0, 6) =~= "Pumped"@);
        has(d, "Pumped"@, 0);
        assert(pumping_stations_fit(column, d));
    }
    if column == "pumped_volume_hm3"@ {
        reveal_strlit("pumped_volume_hm3");
        reveal_strlit("Pumped water volume");
        assert(column.len() == 17);
        assert(d == "Pumped water volume"@);
        reveal_strlit("Pumped");
        assert(d.subrange(0, 6) =~= "Pumped"@);
        has(d, "Pumped"@, 0);
        assert(pumping_stations_fit(column, d));
    }
    if column == "power_consumption_mw"@ {
        reveal_strlit("power_consumption_mw");
        reveal_strlit("Electrical power consumed");
        assert(column.len() == 20);
        assert(d == "Electrical power consumed"@);
        reveal_strlit("power");
        assert(d.subrange(11, 16) =~= "power"@);
        has(d, "power"@, 11);
        assert(pumping_stations_fit(column, d));
    }
    if column == "energy_consumption_mwh"@ {
        reveal_strlit("energy_consumption_mwh");
        reveal_strlit("Electrical energy consumed");
        assert(column.len() == 22);
        assert(d == "Electrical energy consumed"@);
        reveal_strlit("energy");
        assert(d.subrange(11, 17) =~= "energy"@);
        has(d, "energy"@, 11);
        assert(pumping_stations_fit(column, d));
    }
    if column == "pumping_cost"@ {
        reveal_strlit("pumping_cost");
        reveal_strlit("Pumping operation cost");
        assert(column.len() == 12);
        assert(d == "Pumping operation cost"@);
        reveal_strlit("cost");
        assert(d.subrange(18, 22) =~= "cost"@);
        has(d, "cost"@, 18);
        reveal_strlit("umping");
        assert(d.subrange(1, 7) =~= "umping"@);
        has(d, "umping"@, 1);
        assert(pumping_stations_fit(column, d));
    }
    if column == "operative_state_code"@ {
        reveal_strlit("operative_state_code");
        reveal_strlit("Operative state code");
        assert(column.len() == 20);
        assert(d == "Operative state code"@);
        reveal_strlit("code");
        assert(d.subrange(16, 20) =~= "code"@);
        has(d, "code"@, 16);
        reveal_strlit("Operative");
        assert(d.subrange(0, 9) =~= "Operative"@);
        has(d, "Operative"@, 0);
        assert(pumping_stations_fit(column, d));
    }
}

spec fn contracts_fit(column: Seq<char>, d: Seq<char>) -> bool {
    &&& text::ends_in(column, "_mwh"@) ==> text::occurs_in(d, "energy"@) || text::occurs_in(d, "price"@)
    &&& text::ends_in(column, "_cost"@) ==> text::occurs_in(d, "cost"@)
    &&& text::ends_in(column, "_id"@) ==> text::occurs_in(d, "index"@) || text::occurs_in(d, "identifier"@)
    &&& text::ends_in(column, "_code"@) ==> text::occurs_in(d, "code"@)
    &&& text::occurs_at(column, "contract_"@, 0) ==> text::occurs_in(d, "ontract"@)
    &&& text::occurs_at(column, "stage"@, 0) ==> text::occurs_in(d, "Stage"@)
    &&& text::occurs_at(column, "block_"@, 0) ==> text::occurs_in(d, "Block"@)
    &&& text::occurs_at(column, "total_"@, 0) ==> text::occurs_in(d, "Total"@)
    &&& text::occurs_at(column, "power_"@, 0) ==> text::occurs_in(d, "power"@)
    &&& text::occurs_at(column, "energy_"@, 0) ==> text::occurs_in(d, "energy"@)
    &&& text::occurs_at(column, "price_"@, 0) ==> text::occurs_in(d, "price"@)
    &&& text::occurs_at(column, "operative_"@, 0) ==> text::occurs_in(d, "Operative"@)
}

#[verifier::spinoff_prover]
#[verifier::rlimit(60)]
proof fn contracts_are_described()
    ensures
        variables::contracts_description("stage_id"@) == "Stage index"@,
        variables::contracts_description("block_id"@) == "Block index within stage (nullable)"@,
        variables::contracts_description("contract_id"@) == "Contract identifier"@,
        variables::contracts_description("power_mw"@) == "Contracted power"@,
        variables::contracts_description("energy_mwh"@) == "Contracted energy"@,
        variables::contracts_description("price_per_mwh"@) == "Effective contract price"@,
        variables::contracts_description("total_cost"@) == "Total contract cost"@,
        variables::contracts_description("operative_state_code"@) == "Operative state code"@,
{
    reveal_strlit("stage_id");
    assert("stage_id"@.len() == 8);
    reveal_strlit("block_id");
    assert("block_id"@.len() == 8);
    reveal_strlit("contract_id");
    assert("contract_id"@.len() == 11);
    reveal_strlit("power_mw");
    assert("power_mw"@.len() == 8);
    reveal_strlit("energy_mwh");
    assert("energy_mwh"@.len() == 10);
    reveal_strlit("price_per_mwh");
    assert("price_per_mwh"@.len() == 13);
    reveal_strlit("total_cost");
    assert("total_cost"@.len() == 10);
    reveal_strlit("operative_state_code");
    assert("operative_state_code"@.len() == 20);
    assert("block_id"@[0] == 'b' && "stage_id"@[0] == 's');
    assert("power_mw"@[0] == 'p' && "stage_id"@[0] == 's');
    assert("power_mw"@[0] == 'p' && "block_id"@[0] == 'b');
    assert("total_cost"@[0] == 't' && "energy_mwh"@[0] == 'e');
}

/// What the file on contracts says of a column goes with the column's name: where the name
/// begins or ends in a word, the description has that word, or one that stands for it.
#[verifier::spinoff_prover]
#[verifier::rlimit(60)]
pub proof fn contracts_say_what_their_names_say(column: Seq<char>)
    requires
        variables::description_of("contracts"@, column) != ""@,
    ensures
        text::ends_in(column, "_mwh"@) ==> text::occurs_in(variables::description_of("contracts"@, column), "energy"@) || text::occurs_in(variables::description_of("contracts"@, column), "price"@),
        text::ends_in(column, "_cost"@) ==> text::occurs_in(variables::description_of("contracts"@, column), "cost"@),
        text::ends_in(column, "_id"@) ==> text::occurs_in(variables::description_of("contracts"@, column), "index"@) || text::occurs_in(variables::description_of("contracts"@, column), "identifier"@),
        text::ends_in(column, "_code"@) ==> text::occurs_in(variables::description_of("contracts"@, column), "code"@),
        text::occurs_at(column, "contract_"@, 0) ==> text::occurs_in(variables::description_of("contracts"@, column), "ontract"@),
        text::occurs_at(column, "stage"@, 0) ==> text::occurs_in(variables::description_of("contracts"@, column), "Stage"@),
        text::occurs_at(column, "block_"@, 0) ==> text::occurs_in(variables::description_of("contracts"@, column), "Block"@),
        text::occurs_at(column, "total_"@, 0) ==> text::occurs_in(variables::description_of("contracts"@, column), "Total"@),
        text::occurs_at(column, "power_"@, 0) ==> text::occurs_in(variables::description_of("contracts"@, column), "power"@),
        text::occurs_at(column, "energy_"@, 0) ==> text::occurs_in(variables::description_of("contracts"@, column), "energy"@),
        text::occurs_at(column, "price_"@, 0) ==> text::occurs_in(variables::description_of("contracts"@, column), "price"@),
        text::occurs_at(column, "operative_"@, 0) ==> text::occurs_in(variables::description_of("contracts"@, column), "Operative"@),
{
    files_are_apart();
    let d = variables::description_of("contracts"@, column);
    assert(d == variables::contracts_description(column));
    ends_in_mwh(column);
    ends_in_cost(column);
    ends_in_id(column);
    ends_in_code(column);
    begins_with_contract_(column);
    begins_with_stage(column);
    begins_with_block_(column);
    begins_with_total_(column);
    begins_with_power_(column);
    begins_with_energy_(column);
    begins_with_price_(column);
    begins_with_operative_(column);
    contracts_are_described();
    if column == "stage_id"@ {
        reveal_strlit("stage_id");
        reveal_strlit("Stage index");
        assert(column.len() == 8);
        assert(d == "Stage index"@);
        reveal_strlit("index");
        assert(d.subrange(6, 11) =~= "index"@);
        has(d, "index"@, 6);
        reveal_strlit("Stage");
        assert(d.subrange(0, 5) =~= "Stage"@);
        has(d, "Stage"@, 0);
        assert(contracts_fit(column, d));
    }
    if column == "block_id"@ {
        reveal_strlit("block_id");
        reveal_strlit("Block index within stage (nullable)");
        assert(column.len() == 8);
        assert(d == "Block index within stage (nullable)"@);
        reveal_strlit("index");
        assert(d.subrange(6, 11) =~= "index"@);
        has(d, "index"@, 6);
        reveal_strlit("Block");
        assert(d.subrange(0, 5) =~= "Block"@);
        has(d, "Block"@, 0);
        assert(contracts_fit(column, d));
    }
    if column == "contract_id"@ {
        reveal_strlit("contract_id");
        reveal_strlit("Contract identifier");
        assert(column.len() == 11);
        assert(d == "Contract identifier"@);
        reveal_strlit("identifier");
        assert(d.subrange(9, 19) =~= "identifier"@);
        has(d, "identifier"@, 9);
        reveal_strlit("ontract");
        assert(d.subrange(1, 8) =~= "ontract"@);
        has(d, "ontract"@, 1);
        assert(contracts_fit(column, d));
    }
    if column == "power_mw"@ {
        reveal_strlit("power_mw");
        reveal_strlit("Contracted power");
        assert(column.len() == 8);
        assert(d == "Contracted power"@);
        reveal_strlit("power");
        assert(d.subrange(11, 16) =~= "power"@);
        has(d, "power"@, 11);
        assert(contracts_fit(column, d));
    }
    if column == "energy_mwh"@ {
        reveal_strlit("energy_mwh");
        reveal_strlit("Contracted energy");
        assert(column.len() == 10);
        assert(d == "Contracted energy"@);
        reveal_strlit("energy");
        assert(d.subrange(11, 17) =~= "energy"@);
        has(d, "energy"@, 11);
        assert(contracts_fit(column, d));
    }
    if column == "price_per_mwh"@ {
        reveal_strlit("price_per_mwh");
        reveal_strlit("Effective contract price");
        assert(column.len() == 13);
        assert(d == "Effective contract price"@);
        reveal_strlit("price");
        assert(d.subrange(19, 24) =~= "price"@);
        has(d, "price"@, 19);
        assert(contracts_fit(column, d));
    }
    if column == "total_cost"@ {
        reveal_strlit("total_cost");
        reveal_strlit("Total contract cost");
        assert(column.len() == 10);
        assert(d == "Total contract cost"@);
        reveal_strlit("cost");
        assert(d.subrange(15, 19) =~= "cost"@);
        has(d, "cost"@, 15);
        reveal_strlit("Total");
        assert(d.subrange(0, 5) =~= "Total"@);
        has(d, "Total"@, 0);
        assert(contracts_fit(column, d));
    }
    if column == "operative_state_code"@ {
        reveal_strlit("operative_state_code");
        reveal_strlit("Operative state code");
        assert(column.len() == 20);
        assert(d == "Operative state code"@);
        reveal_strlit("code");
        assert(d.subrange(16, 20) =~= "code"@);
        has(d, "code"@, 16);
        reveal_strlit("Operative");
        assert(d.subrange(0, 9) =~= "Operative"@);
        has(d, "Operative"@, 0);
        assert(contracts_fit(column, d));
    }
}

spec fn non_controllables_fit(column: Seq<char>, d: Seq<char>) -> bool {
    &&& text::ends_in(column, "_mwh"@) ==> text::occurs_in(d, "energy"@)
    &&& text::ends_in(column, "_cost"@) ==> text::occurs_in(d, "cost"@)
    &&& text::ends_in(column, "_id"@) ==> text::occurs_in(d, "index"@) || text::occurs_in(d, "identifier"@)
    &&& text::ends_in(column, "_code"@) ==> text::occurs_in(d, "code"@)
    &&& text::occurs_at(column, "curtailment_"@, 0) ==> text::occurs_in(d, "urtail"@)
    &&& text::occurs_at(column, "generation_"@, 0) ==> text::occurs_in(d, "enerat"@)
    &&& text::occurs_at(column, "stage"@, 0) ==> text::occurs_in(d, "Stage"@)
    &&& text::occurs_at(column, "block_"@, 0) ==> text::occurs_in(d, "Block"@)
    &&& text::occurs_at(column, "available_"@, 0) ==> text::occurs_in(d, "Available"@)
    &&& text::occurs_at(column, "non_controllable_"@, 0) ==> text::occurs_in(d, "on-controllable"@)
    &&& text::occurs_at(column, "operative_"@, 0) ==> text::occurs_in(d, "Operative"@)
}

#[verifier::spinoff_prover]
#[verifier::rlimit(60)]
proof fn non_controllables_are_described()
    ensures
        variables::non_controllables_description("stage_id"@) == "Stage index"@,
        variables::non_controllables_description("block_id"@) == "Block index within stage (nullable)"@,
        variables::non_controllables_description("non_controllable_id"@) == "Non-controllable source identifier"@,
        variables::non_controllables_description("generation_mw"@) == "Non-controllable generation dispatched"@,
        variables::non_controllables_description("generation_mwh"@) == "Non-controllable energy generated"@,
        variables::non_controllables_description("available_mw"@) == "Available generation capacity"@,
        variables::non_controllables_description("curtailment_mw"@) == "Curtailed generation"@,
        variables::non_controllables_description("curtailment_mwh"@) == "Curtailed energy"@,
        variables::non_controllables_description("curtailment_cost"@) == "Curtailment cost"@,
        variables::non_controllables_description("operative_state_code"@) == "Operative state code"@,
{
    reveal_strlit("stage_id");
    assert("stage_id"@.len() == 8);
    reveal_strlit("block_id");
    assert("block_id"@.len() == 8);
    reveal_strlit("non_controllable_id");
    assert("non_controllable_id"@.len() == 19);
    reveal_strlit("generation_mw");
    assert("generation_mw"@.len() == 13);
    reveal_strlit("generation_mwh");
    assert("generation_mwh"@.len() == 14);
    reveal_strlit("available_mw");
    assert("available_mw"@.len() == 12);
    reveal_strlit("curtailment_mw");
    assert("curtailment_mw"@.len() == 14);
    reveal_strlit("curtailment_mwh");
    assert("curtailment_mwh"@.len() == 15);
    reveal_strlit("curtailment_cost");
    assert("curtailment_cost"@.len() == 16);
    reveal_strlit("operative_state_code");
    assert("operative_state_code"@.len() == 20);
    assert("block_id"@[0] == 'b' && "stage_id"@[0] == 's');
    assert("curtailment_mw"@[0] == 'c' && "generation_mwh"@[0] == 'g');
}

/// What the file on non-controllable sources says of a column goes with the column's name: where the name
/// begins or ends in a word, the description has that word, or one that stands for it.
#[verifier::spinoff_prover]
#[verifier::rlimit(60)]
pub proof fn non_controllables_say_what_their_names_say(column: Seq<char>)
    requires
        variables::description_of("non_controllables"@, column) != ""@,
    ensures
        text::ends_in(column, "_mwh"@) ==> text::occurs_in(variables::description_of("non_controllables"@, column), "energy"@),
        text::ends_in(column, "_cost"@) ==> text::occurs_in(variables::description_of("non_controllables"@, column), "cost"@),
        text::ends_in(column, "_id"@) ==> text::occurs_in(variables::description_of("non_controllables"@, column), "index"@) || text::occurs_in(variables::description_of("non_controllables"@, column), "identifier"@),
        text::ends_in(column, "_code"@) ==> text::occurs_in(variables::description_of("non_controllables"@, column), "code"@),
        text::occurs_at(column, "curtailment_"@, 0) ==> text::occurs_in(variables::description_of("non_controllables"@, column), "urtail"@),
        text::occurs_at(column, "generation_"@, 0) ==> text::occurs_in(variables::description_of("non_controllables"@, column), "enerat"@),
        text::occurs_at(column, "stage"@, 0) ==> text::occurs_in(variables::description_of("non_controllables"@, column), "Stage"@),
        text::occurs_at(column, "block_"@, 0) ==> text::occurs_in(variables::description_of("non_controllables"@, column), "Block"@),
        text::occurs_at(column, "available_"@, 0) ==> text::occurs_in(variables::description_of("non_controllables"@, column), "Available"@),
        text::occurs_at(column, "non_controllable_"@, 0) ==> text::occurs_in(variables::description_of("non_controllables"@, column), "on-controllable"@),
        text::occurs_at(column, "operative_"@, 0) ==> text::occurs_in(variables::description_of("non_controllables"@, column), "Operative"@),
{
    files_are_apart();
    let d = variables::description_of("non_controllables"@, column);
    assert(d == variables::non_controllables_description(column));
    ends_in_mwh(column);
    ends_in_cost(column);
    ends_in_id(column);
    ends_in_code(column);
    begins_with_curtailment_(column);
    begins_with_generation_(column);
    begins_with_stage(column);
    begins_with_block_(column);
    begins_with_available_(column);
    begins_with_non_controllable_(column);
    begins_with_operative_(column);
    non_controllables_are_described();
    if column == "stage_id"@ {
        reveal_strlit("stage_id");
        reveal_strlit("Stage index");
        assert(column.len() == 8);
        assert(d == "Stage index"@);
        reveal_strlit("index");
        assert(d.subrange(6, 11) =~= "index"@);
        has(d, "index"@, 6);
        reveal_strlit("Stage");
        assert(d.subrange(0, 5) =~= "Stage"@);
        has(d, "Stage"@, 0);
        assert(non_controllables_fit(column, d));
    }
    if column == "block_id"@ {
        reveal_strlit("block_id");
        reveal_strlit("Block index within stage (nullable)");
        assert(column.len() == 8);
        assert(d == "Block index within stage (nullable)"@);
        reveal_strlit("index");
        assert(d.subrange(6, 11) =~= "index"@);
        has(d, "index"@, 6);
        reveal_strlit("Block");
        assert(d.subrange(0, 5) =~= "Block"@);
        has(d, "Block"@, 0);
        assert(non_controllables_fit(column, d));
    }
    if column == "non_controllable_id"@ {
        reveal_strlit("non_controllable_id");
        reveal_strlit("Non-controllable source identifier");
        assert(column.len() == 19);
        assert(d == "Non-controllable source identifier"@);
        reveal_strlit("identifier");
        assert(d.subrange(24, 34) =~= "identifier"@);
        has(d, "identifier"@, 24);
        reveal_strlit("on-controllable");
        assert(d.subrange(1, 16) =~= "on-controllable"@);
        has(d, "on-controllable"@, 1);
        assert(non_controllables_fit(column, d));
    }
    if column == "generation_mw"@ {
        reveal_strlit("generation_mw");
        reveal_strlit("Non-controllable generation dispatched");
        assert(column.len() == 13);
        assert(d == "Non-controllable generation dispatched"@);
        reveal_strlit("enerat");
        assert(d.subrange(18, 24) =~= "enerat"@);
        has(d, "enerat"@, 18);
        assert(non_controllables_fit(column, d));
    }
    if column == "generation_mwh"@ {
        reveal_strlit("generation_mwh");
        reveal_strlit("Non-controllable energy generated");
        assert(column.len() == 14);
        assert(d == "Non-controllable energy generated"@);
        reveal_strlit("energy");
        assert(d.subrange(17, 23) =~= "energy"@);
        has(d, "energy"@, 17);
        reveal_strlit("enerat");
        assert(d.subrange(25, 31) =~= "enerat"@);
        has(d, "enerat"@, 25);
        assert(non_controllables_fit(column, d));
    }
    if column == "available_mw"@ {
        reveal_strlit("available_mw");
        reveal_strlit("Available generation capacity");
        assert(column.len() == 12);
        assert(d == "Available generation capacity"@);
        reveal_strlit("Available");
        assert(d.subrange(0, 9) =~= "Available"@);
        has(d, "Available"@, 0);
        assert(non_controllables_fit(column, d));
    }
    if column == "curtailment_mw"@ {
        reveal_strlit("curtailment_mw");
        reveal_strlit("Curtailed generation");
        assert(column.len() == 14);
        assert(d == "Curtailed generation"@);
        reveal_strlit("urtail");
        assert(d.subrange(1, 7) =~= "urtail"@);
        has(d, "urtail"@, 1);
        assert(non_controllables_fit(column, d));
    }
    if column == "curtailment_mwh"@ {
        reveal_strlit("curtailment_mwh");
        reveal_strlit("Curtailed energy");
        assert(column.len() == 15);
        assert(d == "Curtailed energy"@);
        reveal_strlit("energy");
        assert(d.subrange(10, 16) =~= "energy"@);
        has(d, "energy"@, 10);
        reveal_strlit("urtail");
        assert(d.subrange(1, 7) =~= "urtail"@);
        has(d, "urtail"@, 1);
        assert(non_controllables_fit(column, d));
    }
    if column == "curtailment_cost"@ {
        reveal_strlit("curtailment_cost");
        reveal_strlit("Curtailment cost");
        assert(column.len() == 16);
        assert(d == "Curtailment cost"@);
        reveal_strlit("cost");
        assert(d.subrange(12, 16) =~= "cost"@);
        has(d, "cost"@, 12);
        reveal_strlit("urtail");
        assert(d.subrange(1, 7) =~= "urtail"@);
        has(d, "urtail"@, 1);
        assert(non_controllables_fit(column, d));
    }
    if column == "operative_state_code"@ {
        reveal_strlit("operative_state_code");
        reveal_strlit("Operative state code");
        assert(column.len() == 20);
        assert(d == "Operative state code"@);
        reveal_strlit("code");
        assert(d.subrange(16, 20) =~= "code"@);
        has(d, "code"@, 16);
        reveal_strlit("Operative");
        assert(d.subrange(0, 9) =~= "Operative"@);
        has(d, "Operative"@, 0);
        assert(non_controllables_fit(column, d));
    }
}

spec fn inflow_lags_fit(column: Seq<char>, d: Seq<char>) -> bool {
    &&& text::ends_in(column, "_id"@) ==> text::occurs_in(d, "index"@) || text::occurs_in(d, "identifier"@)
    &&& text::occurs_at(column, "hydro_"@, 0) ==> text::occurs_in(d, "ydro"@)
    &&& text::occurs_at(column, "inflow_"@, 0) ==> text::occurs_in(d, "nflow"@)
    &&& text::occurs_at(column, "stage"@, 0) ==> text::occurs_in(d, "Stage"@)
    &&& text::occurs_at(column, "lag_"@, 0) ==> text::occurs_in(d, "lag"@)
}

#[verifier::spinoff_prover]
#[verifier::rlimit(60)]
proof fn inflow_lags_are_described()
    ensures
        variables::inflow_lags_description("stage_id"@) == "Stage index"@,
        variables::inflow_lags_description("hydro_id"@) == "Hydro plant identifier"@,
        variables::inflow_lags_description("lag_index"@) == "AR lag index (1-based)"@,
        variables::inflow_lags_description("inflow_m3s"@) == "Historical inflow for this lag"@,
{
    reveal_strlit("stage_id");
    assert("stage_id"@.len() == 8);
    reveal_strlit("hydro_id");
    assert("hydro_id"@.len() == 8);
    reveal_strlit("lag_index");
    assert("lag_index"@.len() == 9);
    reveal_strlit("inflow_m3s");
    assert("inflow_m3s"@.len() == 10);
    assert("hydro_id"@[0] == 'h' && "stage_id"@[0] == 's');
}

/// What the file on past inflows says of a column goes with the column's name: where the name
/// begins or ends in a word, the description has that word, or one that stands for it.
#[verifier::spinoff_prover]
#[verifier::rlimit(60)]
pub proof fn inflow_lags_say_what_their_names_say(column: Seq<char>)
    requires
        variables::description_of("inflow_lags"@, column) != ""@,
    ensures
        text::ends_in(column, "_id"@) ==> text::occurs_in(variables::description_of("inflow_lags"@, column), "index"@) || text::occurs_in(variables::description_of("inflow_lags"@, column), "identifier"@),
        text::occurs_at(column, "hydro_"@, 0) ==> text::occurs_in(variables::description_of("inflow_lags"@, column), "ydro"@),
        text::occurs_at(column, "inflow_"@, 0) ==> text::occurs_in(variables::description_of("inflow_lags"@, column), "nflow"@),
        text::occurs_at(column, "stage"@, 0) ==> text::occurs_in(variables::description_of("inflow_lags"@, column), "Stage"@),
        text::occurs_at(column, "lag_"@, 0) ==> text::occurs_in(variables::description_of("inflow_lags"@, column), "lag"@),
{
    files_are_apart();
    let d = variables::description_of("inflow_lags"@, column);
    assert(d == variables::inflow_lags_description(column));
    ends_in_id(column);
    begins_with_hydro_(column);
    begins_with_inflow_(column);
    begins_with_stage(column);
    begins_with_lag_(column);
    inflow_lags_are_described();
    if column == "stage_id"@ {
        reveal_strlit("stage_id");
        reveal_strlit("Stage index");
        assert(column.len() == 8);
        assert(d == "Stage index"@);
        reveal_strlit("index");
        assert(d.subrange(6, 11) =~= "index"@);
        has(d, "index"@, 6);
        reveal_strlit("Stage");
        assert(d.subrange(0, 5) =~= "Stage"@);
        has(d, "Stage"@, 0);
        assert(inflow_lags_fit(column, d));
    }
    if column == "hydro_id"@ {
        reveal_strlit("hydro_id");
        reveal_strlit("Hydro plant identifier");
        assert(column.len() == 8);
        assert(d == "Hydro plant identifier"@);
        reveal_strlit("identifier");
        assert(d.subrange(12, 22) =~= "identifier"@);
        has(d, "identifier"@, 12);
        reveal_strlit("ydro");
        assert(d.subrange(1, 5) =~= "ydro"@);
        has(d, "ydro"@, 1);
        assert(inflow_lags_fit(column, d));
    }
    if column == "lag_index"@ {
        reveal_strlit("lag_index");
        reveal_strlit("AR lag index (1-based)");
        assert(column.len() == 9);
        assert(d == "AR lag index (1-based)"@);
        reveal_strlit("lag");
        assert(d.subrange(3, 6) =~= "lag"@);
        has(d, "lag"@, 3);
        assert(inflow_lags_fit(column, d));
    }
    if column == "inflow_m3s"@ {
        reveal_strlit("inflow_m3s");
        reveal_strlit("Historical inflow for this lag");
        assert(column.len() == 10);
        assert(d == "Historical inflow for this lag"@);
        reveal_strlit("nflow");
        assert(d.subrange(12, 17) =~= "nflow"@);
        has(d, "nflow"@, 12);
        assert(inflow_lags_fit(column, d));
    }
}

spec fn generic_violations_fit(column: Seq<char>, d: Seq<char>) -> bool {
    &&& text::ends_in(column, "_cost"@) ==> text::occurs_in(d, "cost"@) || text::occurs_in(d, "penalty"@)
    &&& text::ends_in(column, "_id"@) ==> text::occurs_in(d, "index"@) || text::occurs_in(d, "identifier"@)
    &&& text::occurs_at(column, "slack_"@, 0) ==> text::occurs_in(d, "slack"@)
    &&& text::occurs_at(column, "stage"@, 0) ==> text::occurs_in(d, "Stage"@)
    &&& text::occurs_at(column, "block_"@, 0) ==> text::occurs_in(d, "Block"@)
    &&& text::occurs_at(column, "constraint_"@, 0) ==> text::occurs_in(d, "constraint"@)
}

#[verifier::spinoff_prover]
#[verifier::rlimit(60)]
proof fn generic_violations_are_described()
    ensures
        variables::generic_violations_description("stage_id"@) == "Stage index"@,
        variables::generic_violations_description("block_id"@) == "Block index within stage (nullable)"@,
        variables::generic_violations_description("constraint_id"@) == "Generic constraint identifier"@,
        variables::generic_violations_description("slack_value"@) == "Constraint slack value"@,
        variables::generic_violations_description("slack_cost"@) == "Constraint slack penalty cost"@,
{
    reveal_strlit("stage_id");
    assert("stage_id"@.len() == 8);
    reveal_strlit("block_id");
    assert("block_id"@.len() == 8);
    reveal_strlit("constraint_id");
    assert("constraint_id"@.len() == 13);
    reveal_strlit("slack_value");
    assert("slack_value"@.len() == 11);
    reveal_strlit("slack_cost");
    assert("slack_cost"@.len() == 10);
    assert("block_id"@[0] == 'b' && "stage_id"@[0] == 's');
}

/// What the file on violations of generic constraints says of a column goes with the column's name: where the name
/// begins or ends in a word, the description has that word, or one that stands for it.
#[verifier::spinoff_prover]
#[verifier::rlimit(60)]
pub proof fn generic_violations_say_what_their_names_say(column: Seq<char>)
    requires
        variables::description_of("generic_violations"@, column) != ""@,
    ensures
        text::ends_in(column, "_cost"@) ==> text::occurs_in(variables::description_of("generic_violations"@, column), "cost"@) || text::occurs_in(variables::description_of("generic_violations"@, column), "penalty"@),
        text::ends_in(column, "_id"@) ==> text::occurs_in(variables::description_of("generic_violations"@, column), "index"@) || text::occurs_in(variables::description_of("generic_violations"@, column), "identifier"@),
        text::occurs_at(column, "slack_"@, 0) ==> text::occurs_in(variables::description_of("generic_violations"@, column), "slack"@),
        text::occurs_at(column, "stage"@, 0) ==> text::occurs_in(variables::description_of("generic_violations"@, column), "Stage"@),
        text::occurs_at(column, "block_"@, 0) ==> text::occurs_in(variables::description_of("generic_violations"@, column), "Block"@),
        text::occurs_at(column, "constraint_"@, 0) ==> text::occurs_in(variables::description_of("generic_violations"@, column), "constraint"@),
{
    files_are_apart();
    let d = variables::description_of("generic_violations"@, column);
    assert(d == variables::generic_violations_description(column));
    ends_in_cost(column);
    ends_in_id(column);
    begins_with_slack_(column);
    begins_with_stage(column);
    begins_with_block_(column);
    begins_with_constraint_(column);
    generic_violations_are_described();
    if column == "stage_id"@ {
        reveal_strlit("stage_id");
        reveal_strlit("Stage index");
        assert(column.len() == 8);
        assert(d == "Stage index"@);
        reveal_strlit("index");
        assert(d.subrange(6, 11) =~= "index"@);
        has(d, "index"@, 6);
        reveal_strlit("Stage");
        assert(d.subrange(0, 5) =~= "Stage"@);
        has(d, "Stage"@, 0);
        assert(generic_violations_fit(column, d));
    }
    if column == "block_id"@ {
        reveal_strlit("block_id");
        reveal_strlit("Block index within stage (nullable)");
        assert(column.len() == 8);
        assert(d == "Block index within stage (nullable)"@);
        reveal_strlit("index");
        assert(d.subrange(6, 11) =~= "index"@);
        has(d, "index"@, 6);
        reveal_strlit("Block");
        assert(d.subrange(0, 5) =~= "Block"@);
        has(d, "Block"@, 0);
        assert(generic_violations_fit(column, d));
    }
    if column == "constraint_id"@ {
        reveal_strlit("constraint_id");
        reveal_strlit("Generic constraint identifier");
        assert(column.len() == 13);
        assert(d == "Generic constraint identifier"@);
        reveal_strlit("identifier");
        assert(d.subrange(19, 29) =~= "identifier"@);
        has(d, "identifier"@, 19);
        reveal_strlit("constraint");
        assert(d.subrange(8, 18) =~= "constraint"@);
        has(d, "constraint"@, 8);
        assert(generic_violations_fit(column, d));
    }
    if column == "slack_value"@ {
        reveal_strlit("slack_value");
        reveal_strlit("Constraint slack value");
        assert(column.len() == 11);
        assert(d == "Constraint slack value"@);
        reveal_strlit("slack");
        assert(d.subrange(11, 16) =~= "slack"@);
        has(d, "slack"@, 11);
        assert(generic_violations_fit(column, d));
    }
    if column == "slack_cost"@ {
        reveal_strlit("slack_cost");
        reveal_strlit("Constraint slack penalty cost");
        assert(column.len() == 10);
        assert(d == "Constraint slack penalty cost"@);
        reveal_strlit("cost");
        assert(d.subrange(25, 29) =~= "cost"@);
        has(d, "cost"@, 25);
        reveal_strlit("slack");
        assert(d.subrange(11, 16) =~= "slack"@);
        has(d, "slack"@, 11);
        assert(generic_violations_fit(column, d));
    }
}

spec fn convergence_fit(column: Seq<char>, d: Seq<char>) -> bool {
    &&& text::ends_in(column, "_ms"@) ==> text::occurs_in(d, "time"@)
    &&& text::occurs_at(column, "cuts_"@, 0) ==> text::occurs_in(d, "Cuts"@) || text::occurs_in(d, "cuts"@)
    &&& text::occurs_at(column, "lp_"@, 0) ==> text::occurs_in(d, "solves"@)
    &&& text::occurs_at(column, "forward_"@, 0) ==> text::occurs_in(d, "forward"@)
    &&& text::occurs_at(column, "time_"@, 0) ==> text::occurs_in(d, "time"@)
    &&& text::occurs_at(column, "upper_bound_"@, 0) ==> text::occurs_in(d, "upper bound"@)
    &&& text::occurs_at(column, "lower_bound"@, 0) ==> text::occurs_in(d, "ower bound"@)
    &&& text::occurs_at(column, "iteration"@, 0) ==> text::occurs_in(d, "Iteration"@)
    &&& text::occurs_at(column, "gap_"@, 0) ==> text::occurs_in(d, "gap"@)
    &&& text::occurs_at(column, "mean_rows_"@, 0) ==> text::occurs_in(d, "rows"@)
}

#[verifier::spinoff_prover]
#[verifier::rlimit(60)]
proof fn convergence_are_described()
    ensures
        variables::convergence_description("iteration"@) == "Iteration number (1-based)"@,
        variables::convergence_description("lower_bound"@) == "Lower bound on the optimal value"@,
        variables::convergence_description("upper_bound_mean"@) == "Mean upper bound estimate (nullable)"@,
        variables::convergence_description("upper_bound_std"@) == "Std deviation of upper bound (nullable)"@,
        variables::convergence_description("gap_percent"@) == "Relative optimality gap in percent (nullable)"@,
        variables::convergence_description("cuts_added"@) == "Cuts added in this iteration"@,
        variables::convergence_description("cuts_removed"@) == "Cuts removed in this iteration"@,
        variables::convergence_description("cuts_active"@) == "Total active cuts after iteration"@,
        variables::convergence_description("time_forward_ms"@) == "Forward-pass wall-clock time"@,
        variables::convergence_description("time_backward_ms"@) == "Backward-pass wall-clock time"@,
        variables::convergence_description("time_total_ms"@) == "Total iteration wall-clock time"@,
        variables::convergence_description("forward_passes"@) == "Number of forward-pass scenarios"@,
        variables::convergence_description("lp_solves"@) == "Total LP solves in iteration"@,
        variables::convergence_description("mean_rows_in_lp"@) == "Mean resident rows loaded per lazy-selection LP solve this iteration (0 when no lazy selection ran)"@,
{
    reveal_strlit("iteration");
    assert("iteration"@.len() == 9);
    reveal_strlit("lower_bound");
    assert("lower_bound"@.len() == 11);
    reveal_strlit("upper_bound_mean");
    assert("upper_bound_mean"@.len() == 16);
    reveal_strlit("upper_bound_std");
    assert("upper_bound_std"@.len() == 15);
    reveal_strlit("gap_percent");
    assert("gap_percent"@.len() == 11);
    reveal_strlit("cuts_added");
    assert("cuts_added"@.len() == 10);
    reveal_strlit("cuts_removed");
    assert("cuts_removed"@.len() == 12);
    reveal_strlit("cuts_active");
    assert("cuts_active"@.len() == 11);
    reveal_strlit("time_forward_ms");
    assert("time_forward_ms"@.len() == 15);
    reveal_strlit("time_backward_ms");
    assert("time_backward_ms"@.len() == 16);
    reveal_strlit("time_total_ms");
    assert("time_total_ms"@.len() == 13);
    reveal_strlit("forward_passes");
    assert("forward_passes"@.len() == 14);
    reveal_strlit("lp_solves");
    assert("lp_solves"@.len() == 9);
    reveal_strlit("mean_rows_in_lp");
    assert("mean_rows_in_lp"@.len() == 15);
    assert("gap_percent"@[0] == 'g' && "lower_bound"@[0] == 'l');
    assert("cuts_active"@[0] == 'c' && "lower_bound"@[0] == 'l');
    assert("cuts_active"@[0] == 'c' && "gap_percent"@[0] == 'g');
    assert("time_forward_ms"@[0] == 't' && "upper_bound_std"@[0] == 'u');
    assert("time_backward_ms"@[0] == 't' && "upper_bound_mean"@[0] == 'u');
    assert("lp_solves"@[0] == 'l' && "iteration"@[0] == 'i');
    assert("mean_rows_in_lp"@[0] == 'm' && "upper_bound_std"@[0] == 'u');
    assert("mean_rows_in_lp"@[0] == 'm' && "time_forward_ms"@[0] == 't');
}

/// What the file on convergence says of a column goes with the column's name: where the name
/// begins or ends in a word, the description has that word, or one that stands for it.
#[verifier::spinoff_prover]
#[verifier::rlimit(60)]
pub proof fn convergence_say_what_their_names_say(column: Seq<char>)
    requires
        variables::description_of("convergence"@, column) != ""@,
    ensures
        text::ends_in(column, "_ms"@) ==> text::occurs_in(variables::description_of("convergence"@, column), "time"@),
        text::occurs_at(column, "cuts_"@, 0) ==> text::occurs_in(variables::description_of("convergence"@, column), "Cuts"@) || text::occurs_in(variables::description_of("convergence"@, column), "cuts"@),
        text::occurs_at(column, "lp_"@, 0) ==> text::occurs_in(variables::description_of("convergence"@, column), "solves"@),
        text::occurs_at(column, "forward_"@, 0) ==> text::occurs_in(variables::description_of("convergence"@, column), "forward"@),
        text::occurs_at(column, "time_"@, 0) ==> text::occurs_in(variables::description_of("convergence"@, column), "time"@),
        text::occurs_at(column, "upper_bound_"@, 0) ==> text::occurs_in(variables::description_of("convergence"@, column), "upper bound"@),
        text::occurs_at(column, "lower_bound"@, 0) ==> text::occurs_in(variables::description_of("convergence"@, column), "ower bound"@),
        text::occurs_at(column, "iteration"@, 0) ==> text::occurs_in(variables::description_of("convergence"@, column), "Iteration"@),
        text::occurs_at(column, "gap_"@, 0) ==> text::occurs_in(variables::description_of("convergence"@, column), "gap"@),
        text::occurs_at(column, "mean_rows_"@, 0) ==> text::occurs_in(variables::description_of("convergence"@, column), "rows"@),
{
    files_are_apart();
    let d = variables::description_of("convergence"@, column);
    assert(d == variables::convergence_description(column));
    ends_in_ms(column);
    begins_with_cuts_(column);
    begins_with_lp_(column);
    begins_with_forward_(column);
    begins_with_time_(column);
    begins_with_upper_bound_(column);
    begins_with_lower_bound(column);
    begins_with_iteration(column);
    begins_with_gap_(column);
    begins_with_mean_rows_(column);
    convergence_are_described();
    if column == "iteration"@ {
        reveal_strlit("iteration");
        reveal_strlit("Iteration number (1-based)");
        assert(column.len() == 9);
        assert(d == "Iteration number (1-based)"@);
        reveal_strlit("Iteration");
        assert(d.subrange(0, 9) =~= "Iteration"@);
        has(d, "Iteration"@, 0);
        assert(convergence_fit(column, d));
    }
    if column == "lower_bound"@ {
        reveal_strlit("lower_bound");
        reveal_strlit("Lower bound on the optimal value");
        assert(column.len() == 11);
        assert(d == "Lower bound on the optimal value"@);
        reveal_strlit("ower bound");
        assert(d.subrange(1, 11) =~= "ower bound"@);
        has(d, "ower bound"@, 1);
        assert(convergence_fit(column, d));
    }
    if column == "upper_bound_mean"@ {
        reveal_strlit("upper_bound_mean");
        reveal_strlit("Mean upper bound estimate (nullable)");
        assert(column.len() == 16);
        assert(d == "Mean upper bound estimate (nullable)"@);
        reveal_strlit("upper bound");
        assert(d.subrange(5, 16) =~= "upper bound"@);
        has(d, "upper bound"@, 5);
        assert(convergence_fit(column, d));
    }
    if column == "upper_bound_std"@ {
        reveal_strlit("upper_bound_std");
        reveal_strlit("Std deviation of upper bound (nullable)");
        assert(column.len() == 15);
        assert(d == "Std deviation of upper bound (nullable)"@);
        reveal_strlit("upper bound");
        assert(d.subrange(17, 28) =~= "upper bound"@);
        has(d, "upper bound"@, 17);
        assert(convergence_fit(column, d));
    }
    if column == "gap_percent"@ {
        reveal_strlit("gap_percent");
        reveal_strlit("Relative optimality gap in percent (nullable)");
        assert(column.len() == 11);
        assert(d == "Relative optimality gap in percent (nullable)"@);
        reveal_strlit("gap");
        assert(d.subrange(20, 23) =~= "gap"@);
        has(d, "gap"@, 20);
        assert(convergence_fit(column, d));
    }
    if column == "cuts_added"@ {
        reveal_strlit("cuts_added");
        reveal_strlit("Cuts added in this iteration");
        assert(column.len() == 10);
        assert(d == "Cuts added in this iteration"@);
        reveal_strlit("Cuts");
        assert(d.subrange(0, 4) =~= "Cuts"@);
        has(d, "Cuts"@, 0);
        assert(convergence_fit(column, d));
    }
    if column == "cuts_removed"@ {
        reveal_strlit("cuts_removed");
        reveal_strlit("Cuts removed in this iteration");
        assert(column.len() == 12);
        assert(d == "Cuts removed in this iteration"@);
        reveal_strlit("Cuts");
        assert(d.subrange(0, 4) =~= "Cuts"@);
        has(d, "Cuts"@, 0);
        assert(convergence_fit(column, d));
    }
    if column == "cuts_active"@ {
        reveal_strlit("cuts_active");
        reveal_strlit("Total active cuts after iteration");
        assert(column.len() == 11);
        assert(d == "Total active cuts after iteration"@);
        reveal_strlit("cuts");
        assert(d.subrange(13, 17) =~= "cuts"@);
        has(d, "cuts"@, 13);
        assert(convergence_fit(column, d));
    }
    if column == "time_forward_ms"@ {
        reveal_strlit("time_forward_ms");
        reveal_strlit("Forward-pass wall-clock time");
        assert(column.len() == 15);
        assert(d == "Forward-pass wall-clock time"@);
        reveal_strlit("time");
        assert(d.subrange(24, 28) =~= "time"@);
        has(d, "time"@, 24);
        assert(convergence_fit(column, d));
    }
    if column == "time_backward_ms"@ {
        reveal_strlit("time_backward_ms");
        reveal_strlit("Backward-pass wall-clock time");
        assert(column.len() == 16);
        assert(d == "Backward-pass wall-clock time"@);
        reveal_strlit("time");
        assert(d.subrange(25, 29) =~= "time"@);
        has(d, "time"@, 25);
        assert(convergence_fit(column, d));
    }
    if column == "time_total_ms"@ {
        reveal_strlit("time_total_ms");
        reveal_strlit("Total iteration wall-clock time");
        assert(column.len() == 13);
        assert(d == "Total iteration wall-clock time"@);
        reveal_strlit("time");
        assert(d.subrange(27, 31) =~= "time"@);
        has(d, "time"@, 27);
        assert(convergence_fit(column, d));
    }
    if column == "forward_passes"@ {
        reveal_strlit("forward_passes");
        reveal_strlit("Number of forward-pass scenarios");
        assert(column.len() == 14);
        assert(d == "Number of forward-pass scenarios"@);
        reveal_strlit("forward");
        assert(d.subrange(10, 17) =~= "forward"@);
        has(d, "forward"@, 10);
        assert(convergence_fit(column, d));
    }
    if column == "lp_solves"@ {
        reveal_strlit("lp_solves");
        reveal_strlit("Total LP solves in iteration");
        assert(column.len() == 9);
        assert(d == "Total LP solves in iteration"@);
        reveal_strlit("solves");
        assert(d.subrange(9, 15) =~= "solves"@);
        has(d, "solves"@, 9);
        assert(convergence_fit(column, d));
    }
    if column == "mean_rows_in_lp"@ {
        reveal_strlit("mean_rows_in_lp");
        reveal_strlit("Mean resident rows loaded per lazy-selection LP solve this iteration (0 when no lazy selection ran)");
        assert(column.len() == 15);
        assert(d == "Mean resident rows loaded per lazy-selection LP solve this iteration (0 when no lazy selection ran)"@);
        reveal_strlit("rows");
        assert(d.subrange(14, 18) =~= "rows"@);
        has(d, "rows"@, 14);
        assert(convergence_fit(column, d));
    }
}

spec fn iteration_timing_fit(column: Seq<char>, d: Seq<char>) -> bool {
    &&& text::ends_in(column, "_id"@) ==> text::occurs_in(d, "index"@)
    &&& text::ends_in(column, "_ms"@) ==> text::occurs_in(d, "time"@) || text::occurs_in(d, "imbalance"@) || text::occurs_in(d, "overhead"@)
    &&& text::occurs_at(column, "fwd_"@, 0) ==> text::occurs_in(d, "forward"@)
    &&& text::occurs_at(column, "bwd_"@, 0) ==> text::occurs_in(d, "backward"@)
    &&& text::occurs_at(column, "forward_"@, 0) ==> text::occurs_in(d, "Forward"@)
    &&& text::occurs_at(column, "backward_"@, 0) ==> text::occurs_in(d, "Backward"@)
    &&& text::occurs_at(column, "lower_bound"@, 0) ==> text::occurs_in(d, "ower bound"@)
    &&& text::occurs_at(column, "iteration"@, 0) ==> text::occurs_in(d, "Iteration"@)
    &&& text::occurs_at(column, "state_exchange_"@, 0) ==> text::occurs_in(d, "exchange"@)
    &&& text::occurs_at(column, "mpi_allreduce_"@, 0) ==> text::occurs_in(d, "allreduce"@)
    &&& text::occurs_at(column, "worker_"@, 0) ==> text::occurs_in(d, "Worker"@)
    &&& text::occurs_at(column, "rank"@, 0) ==> text::occurs_in(d, "rank"@)
    &&& text::occurs_at(column, "lazy_"@, 0) ==> text::occurs_in(d, "lazy"@)
    &&& text::occurs_at(column, "overhead"@, 0) ==> text::occurs_in(d, "time"@)
}

#[verifier::spinoff_prover]
#[verifier::rlimit(60)]
proof fn iteration_timing_are_described()
    ensures
        variables::iteration_timing_description("iteration"@) == "Iteration number (1-based)"@,
        variables::iteration_timing_description("rank"@) == "MPI rank that produced this row. Always set; single-rank runs use 0."@,
        variables::iteration_timing_description("worker_id"@) == "Worker thread index within the rank's pool. NULL on rank-aggregated rows that carry rank-only timings (cut_selection, mpi_allreduce, cut_sync, lower_bound, state_exchange, cut_batch_build, load_imbalance / scheduling_overhead, overhead). Set on per-worker rows that carry parallel-region timings (forward_wall, backward_wall, fwd_setup, bwd_setup, lazy_scoring)."@,
        variables::iteration_timing_description("forward_wall_ms"@) == "Forward pass wall-clock time"@,
        variables::iteration_timing_description("backward_wall_ms"@) == "Backward pass wall-clock time"@,
        variables::iteration_timing_description("cut_selection_ms"@) == "Row-selection time"@,
        variables::iteration_timing_description("mpi_allreduce_ms"@) == "MPI allreduce time"@,
        variables::iteration_timing_description("cut_sync_ms"@) == "Per-stage row-sync allgatherv time"@,
        variables::iteration_timing_description("lower_bound_ms"@) == "Lower bound evaluation time"@,
        variables::iteration_timing_description("state_exchange_ms"@) == "State exchange allgatherv time"@,
        variables::iteration_timing_description("cut_batch_build_ms"@) == "Row-batch assembly time"@,
        variables::iteration_timing_description("bwd_setup_ms"@) == "Thread-pool setup time before backward pass"@,
        variables::iteration_timing_description("bwd_load_imbalance_ms"@) == "Estimated load imbalance across backward pass worker threads"@,
        variables::iteration_timing_description("bwd_scheduling_overhead_ms"@) == "Scheduling and synchronisation overhead in the backward pass"@,
        variables::iteration_timing_description("fwd_setup_ms"@) == "Thread-pool setup time before forward pass"@,
        variables::iteration_timing_description("fwd_load_imbalance_ms"@) == "Estimated load imbalance across forward pass worker threads"@,
        variables::iteration_timing_description("fwd_scheduling_overhead_ms"@) == "Scheduling and synchronisation overhead in the forward pass"@,
        variables::iteration_timing_description("overhead_ms"@) == "Residual iteration time not attributed to any phase"@,
        variables::iteration_timing_description("lazy_scoring_ms"@) == "Per-worker time spent in lazy candidate scoring inside the lazy-selection solve; 0 when that solve path is not used. A sub-component of the forward/backward phases."@,
{
    reveal_strlit("iteration");
    assert("iteration"@.len() == 9);
    reveal_strlit("rank");
    assert("rank"@.len() == 4);
    reveal_strlit("worker_id");
    assert("worker_id"@.len() == 9);
    reveal_strlit("forward_wall_ms");
    assert("forward_wall_ms"@.len() == 15);
    reveal_strlit("backward_wall_ms");
    assert("backward_wall_ms"@.len() == 16);
    reveal_strlit("cut_selection_ms");
    assert("cut_selection_ms"@.len() == 16);
    reveal_strlit("mpi_allreduce_ms");
    assert("mpi_allreduce_ms"@.len() == 16);
    reveal_strlit("cut_sync_ms");
    assert("cut_sync_ms"@.len() == 11);
    reveal_strlit("lower_bound_ms");
    assert("lower_bound_ms"@.len() == 14);
    reveal_strlit("state_exchange_ms");
    assert("state_exchange_ms"@.len() == 17);
    reveal_strlit("cut_batch_build_ms");
    assert("cut_batch_build_ms"@.len() == 18);
    reveal_strlit("bwd_setup_ms");
    assert("bwd_setup_ms"@.len() == 12);
    reveal_strlit("bwd_load_imbalance_ms");
    assert("bwd_load_imbalance_ms"@.len() == 21);
    reveal_strlit("bwd_scheduling_overhead_ms");
    assert("bwd_scheduling_overhead_ms"@.len() == 26);
    reveal_strlit("fwd_setup_ms");
    assert("fwd_setup_ms"@.len() == 12);
    reveal_strlit("fwd_load_imbalance_ms");
    assert("fwd_load_imbalance_ms"@.len() == 21);
    reveal_strlit("fwd_scheduling_overhead_ms");
    assert("fwd_scheduling_overhead_ms"@.len() == 26);
    reveal_strlit("overhead_ms");
    assert("overhead_ms"@.len() == 11);
    reveal_strlit("lazy_scoring_ms");
    assert("lazy_scoring_ms"@.len() == 15);
    assert("worker_id"@[0] == 'w' && "iteration"@[0] == 'i');
    assert("cut_selection_ms"@[0] == 'c' && "backward_wall_ms"@[0] == 'b');
    assert("mpi_allreduce_ms"@[0] == 'm' && "backward_wall_ms"@[0] == 'b');
    assert("mpi_allreduce_ms"@[0] == 'm' && "cut_selection_ms"@[0] == 'c');
    assert("fwd_setup_ms"@[0] == 'f' && "bwd_setup_ms"@[0] == 'b');
    assert("fwd_load_imbalance_ms"@[0] == 'f' && "bwd_load_imbalance_ms"@[0] == 'b');
    assert("fwd_scheduling_overhead_ms"@[0] == 'f' && "bwd_scheduling_overhead_ms"@[0] == 'b');
    assert("overhead_ms"@[0] == 'o' && "cut_sync_ms"@[0] == 'c');
    assert("lazy_scoring_ms"@[0] == 'l' && "forward_wall_ms"@[0] == 'f');
}

/// What the file on the time of iterations says of a column goes with the column's name: where the name
/// begins or ends in a word, the description has that word, or one that stands for it.
#[verifier::spinoff_prover]
#[verifier::rlimit(60)]
pub proof fn iteration_timing_say_what_their_names_say(column: Seq<char>)
    requires
        variables::description_of("iteration_timing"@, column) != ""@,
    ensures
        text::ends_in(column, "_id"@) ==> text::occurs_in(variables::description_of("iteration_timing"@, column), "index"@),
        text::ends_in(column, "_ms"@) ==> text::occurs_in(variables::description_of("iteration_timing"@, column), "time"@) || text::occurs_in(variables::description_of("iteration_timing"@, column), "imbalance"@) || text::occurs_in(variables::description_of("iteration_timing"@, column), "overhead"@),
        text::occurs_at(column, "fwd_"@, 0) ==> text::occurs_in(variables::description_of("iteration_timing"@, column), "forward"@),
        text::occurs_at(column, "bwd_"@, 0) ==> text::occurs_in(variables::description_of("iteration_timing"@, column), "backward"@),
        text::occurs_at(column, "forward_"@, 0) ==> text::occurs_in(variables::description_of("iteration_timing"@, column), "Forward"@),
        text::occurs_at(column, "backward_"@, 0) ==> text::occurs_in(variables::description_of("iteration_timing"@, column), "Backward"@),
        text::occurs_at(column, "lower_bound"@, 0) ==> text::occurs_in(variables::description_of("iteration_timing"@, column), "ower bound"@),
        text::occurs_at(column, "iteration"@, 0) ==> text::occurs_in(variables::description_of("iteration_timing"@, column), "Iteration"@),
        text::occurs_at(column, "state_exchange_"@, 0) ==> text::occurs_in(variables::description_of("iteration_timing"@, column), "exchange"@),
        text::occurs_at(column, "mpi_allreduce_"@, 0) ==> text::occurs_in(variables::description_of("iteration_timing"@, column), "allreduce"@),
        text::occurs_at(column, "worker_"@, 0) ==> text::occurs_in(variables::description_of("iteration_timing"@, column), "Worker"@),
        text::occurs_at(column, "rank"@, 0) ==> text::occurs_in(variables::description_of("iteration_timing"@, column), "rank"@),
        text::occurs_at(column, "lazy_"@, 0) ==> text::occurs_in(variables::description_of("iteration_timing"@, column), "lazy"@),
        text::occurs_at(column, "overhead"@, 0) ==> text::occurs_in(variables::description_of("iteration_timing"@, column), "time"@),
{
    files_are_apart();
    let d = variables::description_of("iteration_timing"@, column);
    assert(d == variables::iteration_timing_description(column));
    ends_in_id(column);
    ends_in_ms(column);
    begins_with_fwd_(column);
    begins_with_bwd_(column);
    begins_with_forward_(column);
    begins_with_backward_(column);
    begins_with_lower_bound(column);
    begins_with_iteration(column);
    begins_with_state_exchange_(column);
    begins_with_mpi_allreduce_(column);
    begins_with_worker_(column);
    begins_with_rank(column);
    begins_with_lazy_(column);
    begins_with_overhead(column);
    iteration_timing_are_described();
    if column == "iteration"@ {
        reveal_strlit("iteration");
        reveal_strlit("Iteration number (1-based)");
        assert(column.len() == 9);
        assert(d == "Iteration number (1-based)"@);
        reveal_strlit("Iteration");
        assert(d.subrange(0, 9) =~= "Iteration"@);
        has(d, "Iteration"@, 0);
        assert(iteration_timing_fit(column, d));
    }
    if column == "rank"@ {
        reveal_strlit("rank");
        reveal_strlit("MPI rank that produced this row. Always set; single-rank runs use 0.");
        assert(column.len() == 4);
        assert(d == "MPI rank that produced this row. Always set; single-rank runs use 0."@);
        reveal_strlit("rank");
        assert(d.subrange(4, 8) =~= "rank"@);
        has(d, "rank"@, 4);
        assert(iteration_timing_fit(column, d));
    }
    if column == "worker_id"@ {
        reveal_strlit("worker_id");
        reveal_strlit("Worker thread index within the rank's pool. NULL on rank-aggregated rows that carry rank-only timings (cut_selection, mpi_allreduce, cut_sync, lower_bound, state_exchange, cut_batch_build, load_imbalance / scheduling_overhead, overhead). Set on per-worker rows that carry parallel-region timings (forward_wall, backward_wall, fwd_setup, bwd_setup, lazy_scoring).");
        assert(column.len() == 9);
        assert(d == "Worker thread index within the rank's pool. NULL on rank-aggregated rows that carry rank-only timings (cut_selection, mpi_allreduce, cut_sync, lower_bound, state_exchange, cut_batch_build, load_imbalance / scheduling_overhead, overhead). Set on per-worker rows that carry parallel-region timings (forward_wall, backward_wall, fwd_setup, bwd_setup, lazy_scoring)."@);
        reveal_strlit("index");
        assert(d.subrange(14, 19) =~= "index"@);
        has(d, "index"@, 14);
        reveal_strlit("Worker");
        assert(d.subrange(0, 6) =~= "Worker"@);
        has(d, "Worker"@, 0);
        assert(iteration_timing_fit(column, d));
    }
    if column == "forward_wall_ms"@ {
        reveal_strlit("forward_wall_ms");
        reveal_strlit("Forward pass wall-clock time");
        assert(column.len() == 15);
        assert(d == "Forward pass wall-clock time"@);
        reveal_strlit("time");
        assert(d.subrange(24, 28) =~= "time"@);
        has(d, "time"@, 24);
        reveal_strlit("Forward");
        assert(d.subrange(0, 7) =~= "Forward"@);
        has(d, "Forward"@, 0);
        assert(iteration_timing_fit(column, d));
    }
    if column == "backward_wall_ms"@ {
        reveal_strlit("backward_wall_ms");
        reveal_strlit("Backward pass wall-clock time");
        assert(column.len() == 16);
        assert(d == "Backward pass wall-clock time"@);
        reveal_strlit("time");
        assert(d.subrange(25, 29) =~= "time"@);
        has(d, "time"@, 25);
        reveal_strlit("Backward");
        assert(d.subrange(0, 8) =~= "Backward"@);
        has(d, "Backward"@, 0);
        assert(iteration_timing_fit(column, d));
    }
    if column == "cut_selection_ms"@ {
        reveal_strlit("cut_selection_ms");
        reveal_strlit("Row-selection time");
        assert(column.len() == 16);
        assert(d == "Row-selection time"@);
        reveal_strlit("time");
        assert(d.subrange(14, 18) =~= "time"@);
        has(d, "time"@, 14);
        assert(iteration_timing_fit(column, d));
    }
    if column == "mpi_allreduce_ms"@ {
        reveal_strlit("mpi_allreduce_ms");
        reveal_strlit("MPI allreduce time");
        assert(column.len() == 16);
        assert(d == "MPI allreduce time"@);
        reveal_strlit("time");
        assert(d.subrange(14, 18) =~= "time"@);
        has(d, "time"@, 14);
        reveal_strlit("allreduce");
        assert(d.subrange(4, 13) =~= "allreduce"@);
        has(d, "allreduce"@, 4);
        assert(iteration_timing_fit(column, d));
    }
    if column == "cut_sync_ms"@ {
        reveal_strlit("cut_sync_ms");
        reveal_strlit("Per-stage row-sync allgatherv time");
        assert(column.len() == 11);
        assert(d == "Per-stage row-sync allgatherv time"@);
        reveal_strlit("time");
        assert(d.subrange(30, 34) =~= "time"@);
        has(d, "time"@, 30);
        assert(iteration_timing_fit(column, d));
    }
    if column == "lower_bound_ms"@ {
        reveal_strlit("lower_bound_ms");
        reveal_strlit("Lower bound evaluation time");
        assert(column.len() == 14);
        assert(d == "Lower bound evaluation time"@);
        reveal_strlit("time");
        assert(d.subrange(23, 27) =~= "time"@);
        has(d, "time"@, 23);
        reveal_strlit("ower bound");
        assert(d.subrange(1, 11) =~= "ower bound"@);
        has(d, "ower bound"@, 1);
        assert(iteration_timing_fit(column, d));
    }
    if column == "state_exchange_ms"@ {
        reveal_strlit("state_exchange_ms");
        reveal_strlit("State exchange allgatherv time");
        assert(column.len() == 17);
        assert(d == "State exchange allgatherv time"@);
        reveal_strlit("time");
        assert(d.subrange(26, 30) =~= "time"@);
        has(d, "time"@, 26);
        reveal_strlit("exchange");
        assert(d.subrange(6, 14) =~= "exchange"@);
        has(d, "exchange"@, 6);
        assert(iteration_timing_fit(column, d));
    }
    if column == "cut_batch_build_ms"@ {
        reveal_strlit("cut_batch_build_ms");
        reveal_strlit("Row-batch assembly time");
        assert(column.len() == 18);
        assert(d == "Row-batch assembly time"@);
        reveal_strlit("time");
        assert(d.subrange(19, 23) =~= "time"@);
        has(d, "time"@, 19);
        assert(iteration_timing_fit(column, d));
    }
    if column == "bwd_setup_ms"@ {
        reveal_strlit("bwd_setup_ms");
        reveal_strlit("Thread-pool setup time before backward pass");
        assert(column.len() == 12);
        assert(d == "Thread-pool setup time before backward pass"@);
        reveal_strlit("time");
        assert(d.subrange(18, 22) =~= "time"@);
        has(d, "time"@, 18);
        reveal_strlit("backward");
        assert(d.subrange(30, 38) =~= "backward"@);
        has(d, "backward"@, 30);
        assert(iteration_timing_fit(column, d));
    }
    if column == "bwd_load_imbalance_ms"@ {
        reveal_strlit("bwd_load_imbalance_ms");
        reveal_strlit("Estimated load imbalance across backward pass worker threads");
        assert(column.len() == 21);
        assert(d == "Estimated load imbalance across backward pass worker threads"@);
        reveal_strlit("imbalance");
        assert(d.subrange(15, 24) =~= "imbalance"@);
        has(d, "imbalance"@, 15);
        reveal_strlit("backward");
        assert(d.subrange(32, 40) =~= "backward"@);
        has(d, "backward"@, 32);
        assert(iteration_timing_fit(column, d));
    }
    if column == "bwd_scheduling_overhead_ms"@ {
        reveal_strlit("bwd_scheduling_overhead_ms");
        reveal_strlit("Scheduling and synchronisation overhead in the backward pass");
        assert(column.len() == 26);
        assert(d == "Scheduling and synchronisation overhead in the backward pass"@);
        reveal_strlit("overhead");
        assert(d.subrange(31, 39) =~= "overhead"@);
        has(d, "overhead"@, 31);
        reveal_strlit("backward");
        assert(d.subrange(47, 55) =~= "backward"@);
        has(d, "backward"@, 47);
        assert(iteration_timing_fit(column, d));
    }
    if column == "fwd_setup_ms"@ {
        reveal_strlit("fwd_setup_ms");
        reveal_strlit("Thread-pool setup time before forward pass");
        assert(column.len() == 12);
        assert(d == "Thread-pool setup time before forward pass"@);
        reveal_strlit("time");
        assert(d.subrange(18, 22) =~= "time"@);
        has(d, "time"@, 18);
        reveal_strlit("forward");
        assert(d.subrange(30, 37) =~= "forward"@);
        has(d, "forward"@, 30);
        assert(iteration_timing_fit(column, d));
    }
    if column == "fwd_load_imbalance_ms"@ {
        reveal_strlit("fwd_load_imbalance_ms");
        reveal_strlit("Estimated load imbalance across forward pass worker threads");
        assert(column.len() == 21);
        assert(d == "Estimated load imbalance across forward pass worker threads"@);
        reveal_strlit("imbalance");
        assert(d.subrange(15, 24) =~= "imbalance"@);
        has(d, "imbalance"@, 15);
        reveal_strlit("forward");
        assert(d.subrange(32, 39) =~= "forward"@);
        has(d, "forward"@, 32);
        assert(iteration_timing_fit(column, d));
    }
    if column == "fwd_scheduling_overhead_ms"@ {
        reveal_strlit("fwd_scheduling_overhead_ms");
        reveal_strlit("Scheduling and synchronisation overhead in the forward pass");
        assert(column.len() == 26);
        assert(d == "Scheduling and synchronisation overhead in the forward pass"@);
        reveal_strlit("overhead");
        assert(d.subrange(31, 39) =~= "overhead"@);
        has(d, "overhead"@, 31);
        reveal_strlit("forward");
        assert(d.subrange(47, 54) =~= "forward"@);
        has(d, "forward"@, 47);
        assert(iteration_timing_fit(column, d));
    }
    if column == "overhead_ms"@ {
        reveal_strlit("overhead_ms");
        reveal_strlit("Residual iteration time not attributed to any phase");
        assert(column.len() == 11);
        assert(d == "Residual iteration time not attributed to any phase"@);
        reveal_strlit("time");
        assert(d.subrange(19, 23) =~= "time"@);
        has(d, "time"@, 19);
        assert(iteration_timing_fit(column, d));
    }
    if column == "lazy_scoring_ms"@ {
        reveal_strlit("lazy_scoring_ms");
        reveal_strlit("Per-worker time spent in lazy candidate scoring inside the lazy-selection solve; 0 when that solve path is not used. A sub-component of the forward/backward phases.");
        assert(column.len() == 15);
        assert(d == "Per-worker time spent in lazy candidate scoring inside the lazy-selection solve; 0 when that solve path is not used. A sub-component of the forward/backward phases."@);
        reveal_strlit("time");
        assert(d.subrange(11, 15) =~= "time"@);
        has(d, "time"@, 11);
        reveal_strlit("lazy");
        assert(d.subrange(25, 29) =~= "lazy"@);
        has(d, "lazy"@, 25);
        assert(iteration_timing_fit(column, d));
    }
}

spec fn rank_timing_fit(column: Seq<char>, d: Seq<char>) -> bool {
    &&& text::ends_in(column, "_ms"@) ==> text::occurs_in(d, "time"@)
    &&& text::occurs_at(column, "lp_"@, 0) ==> text::occurs_in(d, "solves"@)
    &&& text::occurs_at(column, "forward_"@, 0) ==> text::occurs_in(d, "Forward"@)
    &&& text::occurs_at(column, "backward_"@, 0) ==> text::occurs_in(d, "Backward"@)
    &&& text::occurs_at(column, "iteration"@, 0) ==> text::occurs_in(d, "Iteration"@)
    &&& text::occurs_at(column, "communication_"@, 0) ==> text::occurs_in(d, "Communication"@)
    &&& text::occurs_at(column, "idle_"@, 0) ==> text::occurs_in(d, "Idle"@)
    &&& text::occurs_at(column, "rank"@, 0) ==> text::occurs_in(d, "rank"@)
    &&& text::occurs_at(column, "scenarios_"@, 0) ==> text::occurs_in(d, "Scenarios"@)
}

#[verifier::spinoff_prover]
#[verifier::rlimit(60)]
proof fn rank_timing_are_described()
    ensures
        variables::rank_timing_description("iteration"@) == "Iteration number (1-based)"@,
        variables::rank_timing_description("rank"@) == "MPI rank"@,
        variables::rank_timing_description("forward_time_ms"@) == "Forward-pass time for this rank"@,
        variables::rank_timing_description("backward_time_ms"@) == "Backward-pass time for this rank"@,
        variables::rank_timing_description("communication_time_ms"@) == "Communication time for this rank"@,
        variables::rank_timing_description("idle_time_ms"@) == "Idle time for this rank"@,
        variables::rank_timing_description("lp_solves"@) == "LP solves on this rank"@,
        variables::rank_timing_description("scenarios_processed"@) == "Scenarios processed by this rank"@,
{
    reveal_strlit("iteration");
    assert("iteration"@.len() == 9);
    reveal_strlit("rank");
    assert("rank"@.len() == 4);
    reveal_strlit("forward_time_ms");
    assert("forward_time_ms"@.len() == 15);
    reveal_strlit("backward_time_ms");
    assert("backward_time_ms"@.len() == 16);
    reveal_strlit("communication_time_ms");
    assert("communication_time_ms"@.len() == 21);
    reveal_strlit("idle_time_ms");
    assert("idle_time_ms"@.len() == 12);
    reveal_strlit("lp_solves");
    assert("lp_solves"@.len() == 9);
    reveal_strlit("scenarios_processed");
    assert("scenarios_processed"@.len() == 19);
    assert("lp_solves"@[0] == 'l' && "iteration"@[0] == 'i');
}

/// What the file on the time of ranks says of a column goes with the column's name: where the name
/// begins or ends in a word, the description has that word, or one that stands for it.
#[verifier::spinoff_prover]
#[verifier::rlimit(60)]
pub proof fn rank_timing_say_what_their_names_say(column: Seq<char>)
    requires
        variables::description_of("rank_timing"@, column) != ""@,
    ensures
        text::ends_in(column, "_ms"@) ==> text::occurs_in(variables::description_of("rank_timing"@, column), "time"@),
        text::occurs_at(column, "lp_"@, 0) ==> text::occurs_in(variables::description_of("rank_timing"@, column), "solves"@),
        text::occurs_at(column, "forward_"@, 0) ==> text::occurs_in(variables::description_of("rank_timing"@, column), "Forward"@),
        text::occurs_at(column, "backward_"@, 0) ==> text::occurs_in(variables::description_of("rank_timing"@, column), "Backward"@),
        text::occurs_at(column, "iteration"@, 0) ==> text::occurs_in(variables::description_of("rank_timing"@, column), "Iteration"@),
        text::occurs_at(column, "communication_"@, 0) ==> text::occurs_in(variables::description_of("rank_timing"@, column), "Communication"@),
        text::occurs_at(column, "idle_"@, 0) ==> text::occurs_in(variables::description_of("rank_timing"@, column), "Idle"@),
        text::occurs_at(column, "rank"@, 0) ==> text::occurs_in(variables::description_of("rank_timing"@, column), "rank"@),
        text::occurs_at(column, "scenarios_"@, 0) ==> text::occurs_in(variables::description_of("rank_timing"@, column), "Scenarios"@),
{
    files_are_apart();
    let d = variables::description_of("rank_timing"@, column);
    assert(d == variables::rank_timing_description(column));
    ends_in_ms(column);
    begins_with_lp_(column);
    begins_with_forward_(column);
    begins_with_backward_(column);
    begins_with_iteration(column);
    begins_with_communication_(column);
    begins_with_idle_(column);
    begins_with_rank(column);
    begins_with_scenarios_(column);
    rank_timing_are_described();
    if column == "iteration"@ {
        reveal_strlit("iteration");
        reveal_strlit("Iteration number (1-based)");
        assert(column.len() == 9);
        assert(d == "Iteration number (1-based)"@);
        reveal_strlit("Iteration");
        assert(d.subrange(0, 9) =~= "Iteration"@);
        has(d, "Iteration"@, 0);
        assert(rank_timing_fit(column, d));
    }
    if column == "rank"@ {
        reveal_strlit("rank");
        reveal_strlit("MPI rank");
        assert(column.len() == 4);
        assert(d == "MPI rank"@);
        reveal_strlit("rank");
        assert(d.subrange(4, 8) =~= "rank"@);
        has(d, "rank"@, 4);
        assert(rank_timing_fit(column, d));
    }
    if column == "forward_time_ms"@ {
        reveal_strlit("forward_time_ms");
        reveal_strlit("Forward-pass time for this rank");
        assert(column.len() == 15);
        assert(d == "Forward-pass time for this rank"@);
        reveal_strlit("time");
        assert(d.subrange(13, 17) =~= "time"@);
        has(d, "time"@, 13);
        reveal_strlit("Forward");
        assert(d.subrange(0, 7) =~= "Forward"@);
        has(d, "Forward"@, 0);
        assert(rank_timing_fit(column, d));
    }
    if column == "backward_time_ms"@ {
        reveal_strlit("backward_time_ms");
        reveal_strlit("Backward-pass time for this rank");
        assert(column.len() == 16);
        assert(d == "Backward-pass time for this rank"@);
        reveal_strlit("time");
        assert(d.subrange(14, 18) =~= "time"@);
        has(d, "time"@, 14);
        reveal_strlit("Backward");
        assert(d.subrange(0, 8) =~= "Backward"@);
        has(d, "Backward"@, 0);
        assert(rank_timing_fit(column, d));
    }
    if column == "communication_time_ms"@ {
        reveal_strlit("communication_time_ms");
        reveal_strlit("Communication time for this rank");
        assert(column.len() == 21);
        assert(d == "Communication time for this rank"@);
        reveal_strlit("time");
        assert(d.subrange(14, 18) =~= "time"@);
        has(d, "time"@, 14);
        reveal_strlit("Communication");
        assert(d.subrange(0, 13) =~= "Communication"@);
        has(d, "Communication"@, 0);
        assert(rank_timing_fit(column, d));
    }
    if column == "idle_time_ms"@ {
        reveal_strlit("idle_time_ms");
        reveal_strlit("Idle time for this rank");
        assert(column.len() == 12);
        assert(d == "Idle time for this rank"@);
        reveal_strlit("time");
        assert(d.subrange(5, 9) =~= "time"@);
        has(d, "time"@, 5);
        reveal_strlit("Idle");
        assert(d.subrange(0, 4) =~= "Idle"@);
        has(d, "Idle"@, 0);
        assert(rank_timing_fit(column, d));
    }
    if column == "lp_solves"@ {
        reveal_strlit("lp_solves");
        reveal_strlit("LP solves on this rank");
        assert(column.len() == 9);
        assert(d == "LP solves on this rank"@);
        reveal_strlit("solves");
        assert(d.subrange(3, 9) =~= "solves"@);
        has(d, "solves"@, 3);
        assert(rank_timing_fit(column, d));
    }
    if column == "scenarios_processed"@ {
        reveal_strlit("scenarios_processed");
        reveal_strlit("Scenarios processed by this rank");
        assert(column.len() == 19);
        assert(d == "Scenarios processed by this rank"@);
        reveal_strlit("Scenarios");
        assert(d.subrange(0, 9) =~= "Scenarios"@);
        has(d, "Scenarios"@, 0);
        assert(rank_timing_fit(column, d));
    }
}

spec fn cut_selection_fit(column: Seq<char>, d: Seq<char>) -> bool {
    &&& text::ends_in(column, "_ms"@) ==> text::occurs_in(d, "time"@)
    &&& text::occurs_at(column, "cuts_"@, 0) ==> text::occurs_in(d, "Cuts"@) || text::occurs_in(d, "cuts"@)
    &&& text::occurs_at(column, "stage"@, 0) ==> text::occurs_in(d, "Stage"@)
    &&& text::occurs_at(column, "iteration"@, 0) ==> text::occurs_in(d, "Iteration"@)
    &&& text::occurs_at(column, "selection_"@, 0) ==> text::occurs_in(d, "selection"@)
    &&& text::occurs_at(column, "budget_"@, 0) ==> text::occurs_in(d, "budget"@)
    &&& text::occurs_at(column, "active_"@, 0) ==> text::occurs_in(d, "Active"@)
}

#[verifier::spinoff_prover]
#[verifier::rlimit(60)]
proof fn cut_selection_are_described()
    ensures
        variables::cut_selection_description("iteration"@) == "Iteration number (1-based)"@,
        variables::cut_selection_description("stage"@) == "Stage index (0-based)"@,
        variables::cut_selection_description("cuts_populated"@) == "Total cuts ever generated at this stage"@,
        variables::cut_selection_description("cuts_active_before"@) == "Active cuts before selection ran"@,
        variables::cut_selection_description("cuts_deactivated"@) == "Cuts deactivated by selection"@,
        variables::cut_selection_description("cuts_reactivated"@) == "Cuts reactivated (previously deactivated, re-entered LP)"@,
        variables::cut_selection_description("cuts_active_after"@) == "Active cuts after selection"@,
        variables::cut_selection_description("selection_time_ms"@) == "Wall-clock time for selection at this stage"@,
        variables::cut_selection_description("budget_evicted"@) == "Cuts evicted by budget enforcement (null when budget disabled)"@,
        variables::cut_selection_description("active_after_budget"@) == "Active cuts after budget enforcement (null when budget disabled)"@,
{
    reveal_strlit("iteration");
    assert("iteration"@.len() == 9);
    reveal_strlit("stage");
    assert("stage"@.len() == 5);
    reveal_strlit("cuts_populated");
    assert("cuts_populated"@.len() == 14);
    reveal_strlit("cuts_active_before");
    assert("cuts_active_before"@.len() == 18);
    reveal_strlit("cuts_deactivated");
    assert("cuts_deactivated"@.len() == 16);
    reveal_strlit("cuts_reactivated");
    assert("cuts_reactivated"@.len() == 16);
    reveal_strlit("cuts_active_after");
    assert("cuts_active_after"@.len() == 17);
    reveal_strlit("selection_time_ms");
    assert("selection_time_ms"@.len() == 17);
    reveal_strlit("budget_evicted");
    assert("budget_evicted"@.len() == 14);
    reveal_strlit("active_after_budget");
    assert("active_after_budget"@.len() == 19);
    assert("cuts_reactivated"@[5] == 'r' && "cuts_deactivated"@[5] == 'd');
    assert("selection_time_ms"@[0] == 's' && "cuts_active_after"@[0] == 'c');
    assert("budget_evicted"@[0] == 'b' && "cuts_populated"@[0] == 'c');
}

/// What the file on the selection of cuts says of a column goes with the column's name: where the name
/// begins or ends in a word, the description has that word, or one that stands for it.
#[verifier::spinoff_prover]
#[verifier::rlimit(60)]
pub proof fn cut_selection_say_what_their_names_say(column: Seq<char>)
    requires
        variables::description_of("cut_selection"@, column) != ""@,
    ensures
        text::ends_in(column, "_ms"@) ==> text::occurs_in(variables::description_of("cut_selection"@, column), "time"@),
        text::occurs_at(column, "cuts_"@, 0) ==> text::occurs_in(variables::description_of("cut_selection"@, column), "Cuts"@) || text::occurs_in(variables::description_of("cut_selection"@, column), "cuts"@),
        text::occurs_at(column, "stage"@, 0) ==> text::occurs_in(variables::description_of("cut_selection"@, column), "Stage"@),
        text::occurs_at(column, "iteration"@, 0) ==> text::occurs_in(variables::description_of("cut_selection"@, column), "Iteration"@),
        text::occurs_at(column, "selection_"@, 0) ==> text::occurs_in(variables::description_of("cut_selection"@, column), "selection"@),
        text::occurs_at(column, "budget_"@, 0) ==> text::occurs_in(variables::description_of("cut_selection"@, column), "budget"@),
        text::occurs_at(column, "active_"@, 0) ==> text::occurs_in(variables::description_of("cut_selection"@, column), "Active"@),
{
    files_are_apart();
    let d = variables::description_of("cut_selection"@, column);
    assert(d == variables::cut_selection_description(column));
    ends_in_ms(column);
    begins_with_cuts_(column);
    begins_with_stage(column);
    begins_with_iteration(column);
    begins_with_selection_(column);
    begins_with_budget_(column);
    begins_with_active_(column);
    cut_selection_are_described();
    if column == "iteration"@ {
        reveal_strlit("iteration");
        reveal_strlit("Iteration number (1-based)");
        assert(column.len() == 9);
        assert(d == "Iteration number (1-based)"@);
        reveal_strlit("Iteration");
        assert(d.subrange(0, 9) =~= "Iteration"@);
        has(d, "Iteration"@, 0);
        assert(cut_selection_fit(column, d));
    }
    if column == "stage"@ {
        reveal_strlit("stage");
        reveal_strlit("Stage index (0-based)");
        assert(column.len() == 5);
        assert(d == "Stage index (0-based)"@);
        reveal_strlit("Stage");
        assert(d.subrange(0, 5) =~= "Stage"@);
        has(d, "Stage"@, 0);
        assert(cut_selection_fit(column, d));
    }
    if column == "cuts_populated"@ {
        reveal_strlit("cuts_populated");
        reveal_strlit("Total cuts ever generated at this stage");
        assert(column.len() == 14);
        assert(d == "Total cuts ever generated at this stage"@);
        reveal_strlit("cuts");
        assert(d.subrange(6, 10) =~= "cuts"@);
        has(d, "cuts"@, 6);
        assert(cut_selection_fit(column, d));
    }
    if column == "cuts_active_before"@ {
        reveal_strlit("cuts_active_before");
        reveal_strlit("Active cuts before selection ran");
        assert(column.len() == 18);
        assert(d == "Active cuts before selection ran"@);
        reveal_strlit("cuts");
        assert(d.subrange(7, 11) =~= "cuts"@);
        has(d, "cuts"@, 7);
        assert(cut_selection_fit(column, d));
    }
    if column == "cuts_deactivated"@ {
        reveal_strlit("cuts_deactivated");
        reveal_strlit("Cuts deactivated by selection");
        assert(column.len() == 16);
        assert(d == "Cuts deactivated by selection"@);
        reveal_strlit("Cuts");
        assert(d.subrange(0, 4) =~= "Cuts"@);
        has(d, "Cuts"@, 0);
        assert(cut_selection_fit(column, d));
    }
    if column == "cuts_reactivated"@ {
        reveal_strlit("cuts_reactivated");
        reveal_strlit("Cuts reactivated (previously deactivated, re-entered LP)");
        assert(column.len() == 16);
        assert(d == "Cuts reactivated (previously deactivated, re-entered LP)"@);
        reveal_strlit("Cuts");
        assert(d.subrange(0, 4) =~= "Cuts"@);
        has(d, "Cuts"@, 0);
        assert(cut_selection_fit(column, d));
    }
    if column == "cuts_active_after"@ {
        reveal_strlit("cuts_active_after");
        reveal_strlit("Active cuts after selection");
        assert(column.len() == 17);
        assert(d == "Active cuts after selection"@);
        reveal_strlit("cuts");
        assert(d.subrange(7, 11) =~= "cuts"@);
        has(d, "cuts"@, 7);
        assert(cut_selection_fit(column, d));
    }
    if column == "selection_time_ms"@ {
        reveal_strlit("selection_time_ms");
        reveal_strlit("Wall-clock time for selection at this stage");
        assert(column.len() == 17);
        assert(d == "Wall-clock time for selection at this stage"@);
        reveal_strlit("time");
        assert(d.subrange(11, 15) =~= "time"@);
        has(d, "time"@, 11);
        reveal_strlit("selection");
        assert(d.subrange(20, 29) =~= "selection"@);
        has(d, "selection"@, 20);
        assert(cut_selection_fit(column, d));
    }
    if column == "budget_evicted"@ {
        reveal_strlit("budget_evicted");
        reveal_strlit("Cuts evicted by budget enforcement (null when budget disabled)");
        assert(column.len() == 14);
        assert(d == "Cuts evicted by budget enforcement (null when budget disabled)"@);
        reveal_strlit("budget");
        assert(d.subrange(16, 22) =~= "budget"@);
        has(d, "budget"@, 16);
        assert(cut_selection_fit(column, d));
    }
    if column == "active_after_budget"@ {
        reveal_strlit("active_after_budget");
        reveal_strlit("Active cuts after budget enforcement (null when budget disabled)");
        assert(column.len() == 19);
        assert(d == "Active cuts after budget enforcement (null when budget disabled)"@);
        reveal_strlit("Active");
        assert(d.subrange(0, 6) =~= "Active"@);
        has(d, "Active"@, 0);
        assert(cut_selection_fit(column, d));
    }
}

spec fn solver_iterations_fit(column: Seq<char>, d: Seq<char>) -> bool {
    &&& text::ends_in(column, "_id"@) ==> text::occurs_in(d, "index"@)
    &&& text::ends_in(column, "_ms"@) ==> text::occurs_in(d, "time"@)
    &&& text::occurs_at(column, "lp_"@, 0) ==> text::occurs_in(d, "solves"@) || text::occurs_in(d, "Solves"@)
    &&& text::occurs_at(column, "load_"@, 0) ==> text::occurs_in(d, "load"@)
    &&& text::occurs_at(column, "retry_"@, 0) ==> text::occurs_in(d, "etry"@)
    &&& text::occurs_at(column, "basis_"@, 0) ==> text::occurs_in(d, "asis"@)
    &&& text::occurs_at(column, "stage"@, 0) ==> text::occurs_in(d, "Stage"@)
    &&& text::occurs_at(column, "iteration"@, 0) ==> text::occurs_in(d, "Iteration"@)
    &&& text::occurs_at(column, "simplex_"@, 0) ==> text::occurs_in(d, "simplex"@)
    &&& text::occurs_at(column, "solve_time"@, 0) ==> text::occurs_in(d, "solve"@)
    &&& text::occurs_at(column, "set_bounds_"@, 0) ==> text::occurs_in(d, "set_bounds"@)
    &&& text::occurs_at(column, "worker_"@, 0) ==> text::occurs_in(d, "Worker"@)
    &&& text::occurs_at(column, "rank"@, 0) ==> text::occurs_in(d, "rank"@)
    &&& text::occurs_at(column, "phase"@, 0) ==> text::occurs_in(d, "phase"@)
    &&& text::occurs_at(column, "opening"@, 0) ==> text::occurs_in(d, "Opening"@)
}

#[verifier::spinoff_prover]
#[verifier::rlimit(60)]
proof fn solver_iterations_are_described()
    ensures
        variables::solver_iterations_description("iteration"@) == "Iteration number (1-based) or scenario ID (0-based)"@,
        variables::solver_iterations_description("phase"@) == "Solver phase (forward, backward, lower_bound, simulation)"@,
        variables::solver_iterations_description("stage"@) == "Stage index (-1 for non-per-stage phases)"@,
        variables::solver_iterations_description("lp_solves"@) == "Number of LP solves"@,
        variables::solver_iterations_description("lp_successes"@) == "Solves that returned optimal"@,
        variables::solver_iterations_description("lp_retries"@) == "Solves requiring retry escalation"@,
        variables::solver_iterations_description("lp_failures"@) == "Solves that exhausted all retry levels"@,
        variables::solver_iterations_description("retry_attempts"@) == "Total retry attempts across all solves"@,
        variables::solver_iterations_description("basis_offered"@) == "Number of warm-start solve calls (basis-offered)"@,
        variables::solver_iterations_description("basis_consistency_failures"@) == "Number of warm-start solve calls rejected because isBasisConsistent returned false"@,
        variables::solver_iterations_description("simplex_iterations"@) == "Total simplex iterations"@,
        variables::solver_iterations_description("solve_time_ms"@) == "Cumulative solve wall-clock time"@,
        variables::solver_iterations_description("load_model_time_ms"@) == "Cumulative load_model call time"@,
        variables::solver_iterations_description("set_bounds_time_ms"@) == "Cumulative set_bounds call time"@,
        variables::solver_iterations_description("basis_set_time_ms"@) == "Cumulative set_basis call time"@,
        variables::solver_iterations_description("opening"@) == "Opening (noise realization) index within the stage, for backward-pass rows. NULL for forward, lower_bound, and simulation rows — these phases do not have an opening dimension. Backward rows range 0..n_openings."@,
        variables::solver_iterations_description("rank"@) == "MPI rank that produced this row. NULL for rank-aggregated rows."@,
        variables::solver_iterations_description("worker_id"@) == "Worker thread index within the rank's pool that produced this row. NULL for rank-aggregated rows."@,
{
    reveal_strlit("iteration");
    assert("iteration"@.len() == 9);
    reveal_strlit("phase");
    assert("phase"@.len() == 5);
    reveal_strlit("stage");
    assert("stage"@.len() == 5);
    reveal_strlit("lp_solves");
    assert("lp_solves"@.len() == 9);
    reveal_strlit("lp_successes");
    assert("lp_successes"@.len() == 12);
    reveal_strlit("lp_retries");
    assert("lp_retries"@.len() == 10);
    reveal_strlit("lp_failures");
    assert("lp_failures"@.len() == 11);
    reveal_strlit("retry_attempts");
    assert("retry_attempts"@.len() == 14);
    reveal_strlit("basis_offered");
    assert("basis_offered"@.len() == 13);
    reveal_strlit("basis_consistency_failures");
    assert("basis_consistency_failures"@.len() == 26);
    reveal_strlit("simplex_iterations");
    assert("simplex_iterations"@.len() == 18);
    reveal_strlit("solve_time_ms");
    assert("solve_time_ms"@.len() == 13);
    reveal_strlit("load_model_time_ms");
    assert("load_model_time_ms"@.len() == 18);
    reveal_strlit("set_bounds_time_ms");
    assert("set_bounds_time_ms"@.len() == 18);
    reveal_strlit("basis_set_time_ms");
    assert("basis_set_time_ms"@.len() == 17);
    reveal_strlit("opening");
    assert("opening"@.len() == 7);
    reveal_strlit("rank");
    assert("rank"@.len() == 4);
    reveal_strlit("worker_id");
    assert("worker_id"@.len() == 9);
    assert("stage"@[0] == 's' && "phase"@[0] == 'p');
    assert("lp_solves"@[0] == 'l' && "iteration"@[0] == 'i');
    assert("solve_time_ms"@[0] == 's' && "basis_offered"@[0] == 'b');
    assert("load_model_time_ms"@[0] == 'l' && "simplex_iterations"@[0] == 's');
    assert("set_bounds_time_ms"@[1] == 'e' && "simplex_iterations"@[1] == 'i');
    assert("set_bounds_time_ms"@[0] == 's' && "load_model_time_ms"@[0] == 'l');
    assert("worker_id"@[0] == 'w' && "iteration"@[0] == 'i');
    assert("worker_id"@[0] == 'w' && "lp_solves"@[0] == 'l');
}

/// What the file on the solver says of a column goes with the column's name: where the name
/// begins or ends in a word, the description has that word, or one that stands for it.
#[verifier::spinoff_prover]
#[verifier::rlimit(60)]
pub proof fn solver_iterations_say_what_their_names_say(column: Seq<char>)
    requires
        variables::description_of("solver_iterations"@, column) != ""@,
    ensures
        text::ends_in(column, "_id"@) ==> text::occurs_in(variables::description_of("solver_iterations"@, column), "index"@),
        text::ends_in(column, "_ms"@) ==> text::occurs_in(variables::description_of("solver_iterations"@, column), "time"@),
        text::occurs_at(column, "lp_"@, 0) ==> text::occurs_in(variables::description_of("solver_iterations"@, column), "solves"@) || text::occurs_in(variables::description_of("solver_iterations"@, column), "Solves"@),
        text::occurs_at(column, "load_"@, 0) ==> text::occurs_in(variables::description_of("solver_iterations"@, column), "load"@),
        text::occurs_at(column, "retry_"@, 0) ==> text::occurs_in(variables::description_of("solver_iterations"@, column), "etry"@),
        text::occurs_at(column, "basis_"@, 0) ==> text::occurs_in(variables::description_of("solver_iterations"@, column), "asis"@),
        text::occurs_at(column, "stage"@, 0) ==> text::occurs_in(variables::description_of("solver_iterations"@, column), "Stage"@),
        text::occurs_at(column, "iteration"@, 0) ==> text::occurs_in(variables::description_of("solver_iterations"@, column), "Iteration"@),
        text::occurs_at(column, "simplex_"@, 0) ==> text::occurs_in(variables::description_of("solver_iterations"@, column), "simplex"@),
        text::occurs_at(column, "solve_time"@, 0) ==> text::occurs_in(variables::description_of("solver_iterations"@, column), "solve"@),
        text::occurs_at(column, "set_bounds_"@, 0) ==> text::occurs_in(variables::description_of("solver_iterations"@, column), "set_bounds"@),
        text::occurs_at(column, "worker_"@, 0) ==> text::occurs_in(variables::description_of("solver_iterations"@, column), "Worker"@),
        text::occurs_at(column, "rank"@, 0) ==> text::occurs_in(variables::description_of("solver_iterations"@, column), "rank"@),
        text::occurs_at(column, "phase"@, 0) ==> text::occurs_in(variables::description_of("solver_iterations"@, column), "phase"@),
        text::occurs_at(column, "opening"@, 0) ==> text::occurs_in(variables::description_of("solver_iterations"@, column), "Opening"@),
{
    files_are_apart();
    let d = variables::description_of("solver_iterations"@, column);
    assert(d == variables::solver_iterations_description(column));
    ends_in_id(column);
    ends_in_ms(column);
    begins_with_lp_(column);
    begins_with_load_(column);
    begins_with_retry_(column);
    begins_with_basis_(column);
    begins_with_stage(column);
    begins_with_iteration(column);
    begins_with_simplex_(column);
    begins_with_solve_time(column);
    begins_with_set_bounds_(column);
    begins_with_worker_(column);
    begins_with_rank(column);
    begins_with_phase(column);
    begins_with_opening(column);
    solver_iterations_are_described();
    if column == "iteration"@ {
        reveal_strlit("iteration");
        reveal_strlit("Iteration number (1-based) or scenario ID (0-based)");
        assert(column.len() == 9);
        assert(d == "Iteration number (1-based) or scenario ID (0-based)"@);
        reveal_strlit("Iteration");
        assert(d.subrange(0, 9) =~= "Iteration"@);
        has(d, "Iteration"@, 0);
        assert(solver_iterations_fit(column, d));
    }
    if column == "phase"@ {
        reveal_strlit("phase");
        reveal_strlit("Solver phase (forward, backward, lower_bound, simulation)");
        assert(column.len() == 5);
        assert(d == "Solver phase (forward, backward, lower_bound, simulation)"@);
        reveal_strlit("phase");
        assert(d.subrange(7, 12) =~= "phase"@);
        has(d, "phase"@, 7);
        assert(solver_iterations_fit(column, d));
    }
    if column == "stage"@ {
        reveal_strlit("stage");
        reveal_strlit("Stage index (-1 for non-per-stage phases)");
        assert(column.len() == 5);
        assert(d == "Stage index (-1 for non-per-stage phases)"@);
        reveal_strlit("Stage");
        assert(d.subrange(0, 5) =~= "Stage"@);
        has(d, "Stage"@, 0);
        assert(solver_iterations_fit(column, d));
    }
    if column == "lp_solves"@ {
        reveal_strlit("lp_solves");
        reveal_strlit("Number of LP solves");
        assert(column.len() == 9);
        assert(d == "Number of LP solves"@);
        reveal_strlit("solves");
        assert(d.subrange(13, 19) =~= "solves"@);
        has(d, "solves"@, 13);
        assert(solver_iterations_fit(column, d));
    }
    if column == "lp_successes"@ {
        reveal_strlit("lp_successes");
        reveal_strlit("Solves that returned optimal");
        assert(column.len() == 12);
        assert(d == "Solves that returned optimal"@);
        reveal_strlit("Solves");
        assert(d.subrange(0, 6) =~= "Solves"@);
        has(d, "Solves"@, 0);
        assert(solver_iterations_fit(column, d));
    }
    if column == "lp_retries"@ {
        reveal_strlit("lp_retries");
        reveal_strlit("Solves requiring retry escalation");
        assert(column.len() == 10);
        assert(d == "Solves requiring retry escalation"@);
        reveal_strlit("Solves");
        assert(d.subrange(0, 6) =~= "Solves"@);
        has(d, "Solves"@, 0);
        assert(solver_iterations_fit(column, d));
    }
    if column == "lp_failures"@ {
        reveal_strlit("lp_failures");
        reveal_strlit("Solves that exhausted all retry levels");
        assert(column.len() == 11);
        assert(d == "Solves that exhausted all retry levels"@);
        reveal_strlit("Solves");
        assert(d.subrange(0, 6) =~= "Solves"@);
        has(d, "Solves"@, 0);
        assert(solver_iterations_fit(column, d));
    }
    if column == "retry_attempts"@ {
        reveal_strlit("retry_attempts");
        reveal_strlit("Total retry attempts across all solves");
        assert(column.len() == 14);
        assert(d == "Total retry attempts across all solves"@);
        reveal_strlit("etry");
        assert(d.subrange(7, 11) =~= "etry"@);
        has(d, "etry"@, 7);
        assert(solver_iterations_fit(column, d));
    }
    if column == "basis_offered"@ {
        reveal_strlit("basis_offered");
        reveal_strlit("Number of warm-start solve calls (basis-offered)");
        assert(column.len() == 13);
        assert(d == "Number of warm-start solve calls (basis-offered)"@);
        reveal_strlit("asis");
        assert(d.subrange(35, 39) =~= "asis"@);
        has(d, "asis"@, 35);
        assert(solver_iterations_fit(column, d));
    }
    if column == "basis_consistency_failures"@ {
        reveal_strlit("basis_consistency_failures");
        reveal_strlit("Number of warm-start solve calls rejected because isBasisConsistent returned false");
        assert(column.len() == 26);
        assert(d == "Number of warm-start solve calls rejected because isBasisConsistent returned false"@);
        reveal_strlit("asis");
        assert(d.subrange(53, 57) =~= "asis"@);
        has(d, "asis"@, 53);
        assert(solver_iterations_fit(column, d));
    }
    if column == "simplex_iterations"@ {
        reveal_strlit("simplex_iterations");
        reveal_strlit("Total simplex iterations");
        assert(column.len() == 18);
        assert(d == "Total simplex iterations"@);
        reveal_strlit("simplex");
        assert(d.subrange(6, 13) =~= "simplex"@);
        has(d, "simplex"@, 6);
        assert(solver_iterations_fit(column, d));
    }
    if column == "solve_time_ms"@ {
        reveal_strlit("solve_time_ms");
        reveal_strlit("Cumulative solve wall-clock time");
        assert(column.len() == 13);
        assert(d == "Cumulative solve wall-clock time"@);
        reveal_strlit("time");
        assert(d.subrange(28, 32) =~= "time"@);
        has(d, "time"@, 28);
        reveal_strlit("solve");
        assert(d.subrange(11, 16) =~= "solve"@);
        has(d, "solve"@, 11);
        assert(solver_iterations_fit(column, d));
    }
    if column == "load_model_time_ms"@ {
        reveal_strlit("load_model_time_ms");
        reveal_strlit("Cumulative load_model call time");
        assert(column.len() == 18);
        assert(d == "Cumulative load_model call time"@);
        reveal_strlit("time");
        assert(d.subrange(27, 31) =~= "time"@);
        has(d, "time"@, 27);
        reveal_strlit("load");
        assert(d.subrange(11, 15) =~= "load"@);
        has(d, "load"@, 11);
        assert(solver_iterations_fit(column, d));
    }
    if column == "set_bounds_time_ms"@ {
        reveal_strlit("set_bounds_time_ms");
        reveal_strlit("Cumulative set_bounds call time");
        assert(column.len() == 18);
        assert(d == "Cumulative set_bounds call time"@);
        reveal_strlit("time");
        assert(d.subrange(27, 31) =~= "time"@);
        has(d, "time"@, 27);
        reveal_strlit("set_bounds");
        assert(d.subrange(11, 21) =~= "set_bounds"@);
        has(d, "set_bounds"@, 11);
        assert(solver_iterations_fit(column, d));
    }
    if column == "basis_set_time_ms"@ {
        reveal_strlit("basis_set_time_ms");
        reveal_strlit("Cumulative set_basis call time");
        assert(column.len() == 17);
        assert(d == "Cumulative set_basis call time"@);
        reveal_strlit("time");
        assert(d.subrange(26, 30) =~= "time"@);
        has(d, "time"@, 26);
        reveal_strlit("asis");
        assert(d.subrange(16, 20) =~= "asis"@);
        has(d, "asis"@, 16);
        assert(solver_iterations_fit(column, d));
    }
    if column == "opening"@ {
        reveal_strlit("opening");
        reveal_strlit("Opening (noise realization) index within the stage, for backward-pass rows. NULL for forward, lower_bound, and simulation rows — these phases do not have an opening dimension. Backward rows range 0..n_openings.");
        assert(column.len() == 7);
        assert(d == "Opening (noise realization) index within the stage, for backward-pass rows. NULL for forward, lower_bound, and simulation rows — these phases do not have an opening dimension. Backward rows range 0..n_openings."@);
        reveal_strlit("Opening");
        assert(d.subrange(0, 7) =~= "Opening"@);
        has(d, "Opening"@, 0);
        assert(solver_iterations_fit(column, d));
    }
    if column == "rank"@ {
        reveal_strlit("rank");
        reveal_strlit("MPI rank that produced this row. NULL for rank-aggregated rows.");
        assert(column.len() == 4);
        assert(d == "MPI rank that produced this row. NULL for rank-aggregated rows."@);
        reveal_strlit("rank");
        assert(d.subrange(4, 8) =~= "rank"@);
        has(d, "rank"@, 4);
        assert(solver_iterations_fit(column, d));
    }
    if column == "worker_id"@ {
        reveal_strlit("worker_id");
        reveal_strlit("Worker thread index within the rank's pool that produced this row. NULL for rank-aggregated rows.");
        assert(column.len() == 9);
        assert(d == "Worker thread index within the rank's pool that produced this row. NULL for rank-aggregated rows."@);
        reveal_strlit("index");
        assert(d.subrange(14, 19) =~= "index"@);
        has(d, "index"@, 14);
        reveal_strlit("Worker");
        assert(d.subrange(0, 6) =~= "Worker"@);
        has(d, "Worker"@, 0);
        assert(solver_iterations_fit(column, d));
    }
}

spec fn retry_histogram_fit(column: Seq<char>, d: Seq<char>) -> bool {
    &&& text::occurs_at(column, "retry_"@, 0) ==> text::occurs_in(d, "etry"@)
    &&& text::occurs_at(column, "stage"@, 0) ==> text::occurs_in(d, "Stage"@)
    &&& text::occurs_at(column, "iteration"@, 0) ==> text::occurs_in(d, "Iteration"@)
    &&& text::occurs_at(column, "phase"@, 0) ==> text::occurs_in(d, "phase"@)
    &&& text::occurs_at(column, "count"@, 0) ==> text::occurs_in(d, "Number"@)
}

#[verifier::spinoff_prover]
#[verifier::rlimit(60)]
proof fn retry_histogram_are_described()
    ensures
        variables::retry_histogram_description("iteration"@) == "Iteration number (1-based) or scenario ID (0-based)"@,
        variables::retry_histogram_description("phase"@) == "Solver phase (forward, backward, lower_bound, simulation)"@,
        variables::retry_histogram_description("stage"@) == "Stage index (-1 for non-per-stage phases)"@,
        variables::retry_histogram_description("retry_level"@) == "Retry escalation level (0-based)"@,
        variables::retry_histogram_description("count"@) == "Number of solves recovered at this level"@,
{
    reveal_strlit("iteration");
    assert("iteration"@.len() == 9);
    reveal_strlit("phase");
    assert("phase"@.len() == 5);
    reveal_strlit("stage");
    assert("stage"@.len() == 5);
    reveal_strlit("retry_level");
    assert("retry_level"@.len() == 11);
    reveal_strlit("count");
    assert("count"@.len() == 5);
    assert("stage"@[0] == 's' && "phase"@[0] == 'p');
    assert("count"@[0] == 'c' && "phase"@[0] == 'p');
    assert("count"@[0] == 'c' && "stage"@[0] == 's');
}

/// What the file on retries says of a column goes with the column's name: where the name
/// begins or ends in a word, the description has that word, or one that stands for it.
#[verifier::spinoff_prover]
#[verifier::rlimit(60)]
pub proof fn retry_histogram_say_what_their_names_say(column: Seq<char>)
    requires
        variables::description_of("retry_histogram"@, column) != ""@,
    ensures
        text::occurs_at(column, "retry_"@, 0) ==> text::occurs_in(variables::description_of("retry_histogram"@, column), "etry"@),
        text::occurs_at(column, "stage"@, 0) ==> text::occurs_in(variables::description_of("retry_histogram"@, column), "Stage"@),
        text::occurs_at(column, "iteration"@, 0) ==> text::occurs_in(variables::description_of("retry_histogram"@, column), "Iteration"@),
        text::occurs_at(column, "phase"@, 0) ==> text::occurs_in(variables::description_of("retry_histogram"@, column), "phase"@),
        text::occurs_at(column, "count"@, 0) ==> text::occurs_in(variables::description_of("retry_histogram"@, column), "Number"@),
{
    files_are_apart();
    let d = variables::description_of("retry_histogram"@, column);
    assert(d == variables::retry_histogram_description(column));
    begins_with_retry_(column);
    begins_with_stage(column);
    begins_with_iteration(column);
    begins_with_phase(column);
    begins_with_count(column);
    retry_histogram_are_described();
    if column == "iteration"@ {
        reveal_strlit("iteration");
        reveal_strlit("Iteration number (1-based) or scenario ID (0-based)");
        assert(column.len() == 9);
        assert(d == "Iteration number (1-based) or scenario ID (0-based)"@);
        reveal_strlit("Iteration");
        assert(d.subrange(0, 9) =~= "Iteration"@);
        has(d, "Iteration"@, 0);
        assert(retry_histogram_fit(column, d));
    }
    if column == "phase"@ {
        reveal_strlit("phase");
        reveal_strlit("Solver phase (forward, backward, lower_bound, simulation)");
        assert(column.len() == 5);
        assert(d == "Solver phase (forward, backward, lower_bound, simulation)"@);
        reveal_strlit("phase");
        assert(d.subrange(7, 12) =~= "phase"@);
        has(d, "phase"@, 7);
        assert(retry_histogram_fit(column, d));
    }
    if column == "stage"@ {
        reveal_strlit("stage");
        reveal_strlit("Stage index (-1 for non-per-stage phases)");
        assert(column.len() == 5);
        assert(d == "Stage index (-1 for non-per-stage phases)"@);
        reveal_strlit("Stage");
        assert(d.subrange(0, 5) =~= "Stage"@);
        has(d, "Stage"@, 0);
        assert(retry_histogram_fit(column, d));
    }
    if column == "retry_level"@ {
        reveal_strlit("retry_level");
        reveal_strlit("Retry escalation level (0-based)");
        assert(column.len() == 11);
        assert(d == "Retry escalation level (0-based)"@);
        reveal_strlit("etry");
        assert(d.subrange(1, 5) =~= "etry"@);
        has(d, "etry"@, 1);
        assert(retry_histogram_fit(column, d));
    }
    if column == "count"@ {
        reveal_strlit("count");
        reveal_strlit("Number of solves recovered at this level");
        assert(column.len() == 5);
        assert(d == "Number of solves recovered at this level"@);
        reveal_strlit("Number");
        assert(d.subrange(0, 6) =~= "Number"@);
        has(d, "Number"@, 0);
        assert(retry_histogram_fit(column, d));
    }
}

} // verus!
