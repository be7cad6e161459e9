//! End-to-end tests of the lex → parse → evaluate pipeline.
use calc::eval::traverse_expr_tree;
use calc::lexer::math_lexer;
use calc::parser::math_parse;

#[test]
fn five_pow_five_times_four_minus_three() {
    let tokens = math_lexer(&"5 ^ 5 * 4 - 3".to_string()).unwrap();
    let expr = math_parse(&tokens).unwrap();
    assert!(traverse_expr_tree(&expr).unwrap() == 5i64.pow(5) * 4 - 3);
}

#[test]
fn four_plus_four() {
    let tokens = math_lexer(&"4 + 4".to_string()).unwrap();
    let expr = math_parse(&tokens).unwrap();
    assert!(traverse_expr_tree(&expr).unwrap() == 4 + 4);
}

#[test]
fn five_times_four_minus_three() {
    let tokens = math_lexer(&"5 * 4 - 3".to_string()).unwrap();
    let expr = math_parse(&tokens).unwrap();
    assert!(traverse_expr_tree(&expr).unwrap() == 5 * 4 - 3);
}

#[test]
fn four_minus_four_times_three() {
    let tokens = math_lexer(&"4 - 4 * 3".to_string()).unwrap();
    let expr = math_parse(&tokens).unwrap();
    assert!(traverse_expr_tree(&expr).unwrap() == 4 - 4 * 3);
}

#[test]
fn three_divide_three() {
    let tokens = math_lexer(&"3 / 3".to_string()).unwrap();
    let expr = math_parse(&tokens).unwrap();
    assert!(traverse_expr_tree(&expr).unwrap() == 3 / 3);
}

#[test]
fn six_power_two_minus_four_times_three() {
    let tokens = math_lexer(&"6 ^ 2 - 4 * 3".to_string()).unwrap();
    let expr = math_parse(&tokens).unwrap();
    assert!(traverse_expr_tree(&expr).unwrap() == 6i64.pow(2) - 4 * 3);
}

#[test]
fn two_power_two_power_two() {
    let tokens = math_lexer(&"2 ^ 2 ^ 2".to_string()).unwrap();
    let expr = math_parse(&tokens).unwrap();
    assert!(traverse_expr_tree(&expr).unwrap() == 2i64.pow(2).pow(2));
}

#[test]
fn two_power_two_divide_two() {
    let tokens = math_lexer(&"2 ^ 2 / 2".to_string()).unwrap();
    let expr = math_parse(&tokens).unwrap();
    assert!(traverse_expr_tree(&expr).unwrap() == 2i64.pow(2) / 2);
}

#[test]
fn three_minus_four_times_five_add_3_power_two() {
    let tokens = math_lexer(&"3 - 4 * 5 + 3 ^ 2".to_string()).unwrap();
    let expr = math_parse(&tokens).unwrap();
    assert!(traverse_expr_tree(&expr).unwrap() == 3 - 4 * 5 + 3i64.pow(2));
}

#[test]
fn p_four_minus_three_p_times_p_three_minus_5_p() {
    let tokens = math_lexer(&"(4 - 3 ) * (3 - 5)".to_string()).unwrap();
    let expr = math_parse(&tokens).unwrap();
    assert!(traverse_expr_tree(&expr).unwrap() == (4 - 3) * (3 - 5));
}

#[test]
fn p_p_p_one_plus_one_p_p_p() {
    let tokens = math_lexer(&"(((1 + 1)))".to_string()).unwrap();
    let expr = math_parse(&tokens).unwrap();
    assert!(traverse_expr_tree(&expr).unwrap() == (1 + 1));
}

#[test]
fn p_p_one_plus_three_p_times_p_four_plus_five_p_p() {
    let tokens = math_lexer(&"((1 + 3) * (4 + 5))".to_string()).unwrap();
    let expr = math_parse(&tokens).unwrap();
    assert!(traverse_expr_tree(&expr).unwrap() == ((1 + 3) * (4 + 5)));
}

#[test]
fn unmatched_parentheses() {
    let tokens = math_lexer(&"((1) + 1".to_string()).unwrap();
    let res = math_parse(&tokens);
    match res {
        Err(_) => {}
        Ok(_) => panic!("Unmatched parentheses was not caught"),
    }
}

#[test]
fn extra_closing_parentheses() {
    let tokens =
        math_lexer(&"(1 + 1))))))))))))))))))))))))))))))))))))))".to_string()).unwrap();
    let res = math_parse(&tokens);
    match res {
        Err(_) => {}
        Ok(_) => panic!("Unmatched parentheses was not caught"),
    }
}

#[test]
fn unknown_token() {
    let tokens = math_lexer(&"1 _ 1".to_string());
    match tokens {
        Err(_) => {}
        Ok(_) => panic!("Unknown token wasn't caught"),
    }
}

#[test]
fn leading_zeroes() {
    let tokens = math_lexer(&"01 + 1".to_string());
    match tokens {
        Err(_) => {}
        Ok(_) => panic!("leading zero wasn't caught"),
    }
}

#[test]
fn neg_one_minus_one() {
    let tokens = math_lexer(&"-1-1".to_string()).unwrap();
    let expr = math_parse(&tokens).unwrap();
    assert!(traverse_expr_tree(&expr).unwrap() == -1 - 1);
}

#[test]
fn one_minus_neg_one() {
    let tokens = math_lexer(&"1--1".to_string()).unwrap();
    let expr = math_parse(&tokens).unwrap();
    assert!(traverse_expr_tree(&expr).unwrap() == 1 - -1);
}

#[test]
fn incorrect_unary_op() {
    let tokens = math_lexer(&"1-*1".to_string()).unwrap();
    let res = math_parse(&tokens);
    match res {
        Err(_) => {}
        Ok(_) => panic!("incorrect unary op was not caught"),
    }
}

#[test]
fn one_times_neg_neg_one() {
    let tokens = math_lexer(&"1*--1".to_string()).unwrap();
    let expr = math_parse(&tokens).unwrap();
    assert!(traverse_expr_tree(&expr).unwrap() == 1 * --1);
}

#[test]
fn five_times_neg_one_times_p_one_plus_four_p() {
    let tokens = math_lexer(&"5 * -1 * (1 + 4)".to_string()).unwrap();
    let expr = math_parse(&tokens).unwrap();
    assert!(traverse_expr_tree(&expr).unwrap() == 5 * -1 * (1 + 4));
}

#[test]
fn one_times_neg_neg_neg_neg_neg_one() {
    let tokens = math_lexer(&"1 * -----1".to_string()).unwrap();
    let expr = math_parse(&tokens).unwrap();
    assert!(traverse_expr_tree(&expr).unwrap() == 1 * -----1);
}

#[test]
fn one_times_pos_one() {
    let tokens = math_lexer(&"1 * +1".to_string()).unwrap();
    let expr = math_parse(&tokens).unwrap();
    assert!(traverse_expr_tree(&expr).unwrap() == 1 * (0 + 1));
}

#[test]
fn one_times_times_neg_one() {
    let tokens = math_lexer(&"1**-1".to_string()).unwrap();
    let res = math_parse(&tokens);
    match res {
        Err(_) => {}
        Ok(_) => panic!("incorrect unary op was not caught"),
    }
}

#[test]
fn neg_one_times_mult_one() {
    let tokens = math_lexer(&"-1 * *1".to_string()).unwrap();
    let res = math_parse(&tokens);
    match res {
        Err(_) => {}
        Ok(_) => panic!("incorrect unary op was not caught"),
    }
}

#[test]
fn neg_one_times_p_one_plus_four_time_four_p() {
    let tokens = math_lexer(&"-1 * ( 1 + 4 * 4)".to_string()).unwrap();
    let expr = math_parse(&tokens).unwrap();
    assert!(traverse_expr_tree(&expr).unwrap() == -1 * (1 + 4 * 4));
}

#[test]
fn expr2_in_expr1_times_expr2_in_expr1() {
    let tokens = math_lexer(&"(1 * -1) * (2 * -2)".to_string()).unwrap();
    let expr = math_parse(&tokens).unwrap();
    assert!(traverse_expr_tree(&expr).unwrap() == (1 * -1) * (2 * -2));
}

#[test]
fn single_zero() {
    let tokens = math_lexer(&"1 + 0".to_string()).unwrap();
    let expr = math_parse(&tokens).unwrap();
    let eval_res = traverse_expr_tree(&expr);
    match eval_res {
        Ok(_) => {}
        Err(_) => panic!("single zeroes should be allowed"),
    }
}

#[test]
fn divide_by_zero() {
    let tokens = math_lexer(&"1 / 0".to_string()).unwrap();
    let expr = math_parse(&tokens).unwrap();
    let eval_res = traverse_expr_tree(&expr);
    match eval_res {
        Ok(_) => panic!("divide by zero not caught"),
        Err(_) => {}
    }
}
