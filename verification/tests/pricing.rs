use escrow_auction::pricing::{
    calculate_estimation, calculate_score, convert_to_tokens, credit_worth, history_weight,
    perfect_proposal, Credit, History,
};

fn credit(sum: u128, interest_rate: u128, time: u128, is_closed: bool) -> Credit {
    Credit { sum, interest_rate, time, is_closed }
}

#[test]
fn credit_worth_is_the_interest_per_hour() {
    assert_eq!(credit_worth(100000, 5, 6), Some(115));
    assert_eq!(credit_worth(150000, 10, 12), Some(173));
    assert_eq!(credit_worth(1, 1, 1), Some(0));
    assert_eq!(credit_worth(720, 1, 1), Some(1));
    assert_eq!(credit_worth(0, 0, 1), Some(0));
}

#[test]
fn credit_worth_fails_where_it_cannot_be_computed() {
    assert_eq!(credit_worth(5, 5, 0), None);
    assert_eq!(credit_worth(u128::MAX, 2, 1), None);
    assert_eq!(credit_worth(1, 1, u128::MAX / 720 + 1), None);
    assert_eq!(credit_worth(u128::MAX, 1, u128::MAX / 720), Some(1));
}

#[test]
fn convert_to_tokens_balances_closed_against_open_credits() {
    let history = vec![
        credit(100000, 5, 6, true),
        credit(200000, 10, 9, false),
        credit(200000, 7, 6, true),
        credit(150000, 10, 12, true),
    ];
    assert_eq!(convert_to_tokens(&history), Some(304));
    assert_eq!(convert_to_tokens(&vec![]), Some(0));
    assert_eq!(convert_to_tokens(&vec![credit(200000, 10, 9, false)]), None);
    assert_eq!(
        convert_to_tokens(&vec![credit(200000, 10, 9, false), credit(200000, 10, 9, true)]),
        Some(0)
    );
}

#[test]
fn convert_to_tokens_fails_on_what_cannot_be_computed() {
    assert_eq!(convert_to_tokens(&vec![credit(100000, 5, 6, true), credit(1, 1, 0, true)]), None);
    assert_eq!(convert_to_tokens(&vec![credit(u128::MAX, 2, 1, true)]), None);
    // one credit worth more than a signed number holds
    let large = credit(u128::MAX, 1, 1, true);
    assert_eq!(credit_worth(u128::MAX, 1, 1), Some(u128::MAX / 720));
    assert_eq!(convert_to_tokens(&vec![large]), Some(u128::MAX / 720));
    let many: Vec<Credit> = (0..400).map(|_| large).collect();
    assert_eq!(convert_to_tokens(&many), None);
}

#[test]
fn perfect_proposal_is_the_leading_power_of_ten() {
    assert_eq!(perfect_proposal(1), 1);
    assert_eq!(perfect_proposal(9), 1);
    assert_eq!(perfect_proposal(10), 10);
    assert_eq!(perfect_proposal(1500), 1000);
    assert_eq!(perfect_proposal(99_999), 10_000);
    assert_eq!(perfect_proposal(100_000), 100_000);
    assert_eq!(perfect_proposal(u128::MAX), 100_000_000_000_000_000_000_000_000_000_000_000_000);
}

#[test]
fn calculate_estimation_scales_the_quotient_and_adds_the_rest() {
    assert_eq!(calculate_estimation(1500, 1000, 1000), Some(1500));
    assert_eq!(calculate_estimation(2500, 1000, 1000), Some(2500));
    assert_eq!(calculate_estimation(2500, 700, 1000), Some(3400));
    assert_eq!(calculate_estimation(5, 7, 1000), Some(5));
    assert_eq!(calculate_estimation(5, 0, 1000), None);
    assert_eq!(calculate_estimation(u128::MAX, 1, 2), None);
    assert_eq!(calculate_estimation(u128::MAX, 2, 2), Some(u128::MAX));
    assert_eq!(calculate_estimation(u128::MAX, 2, 3), None);
}

#[test]
fn history_weight_balances_the_weights() {
    let credits = vec![credit(1000000, 6, 12, true), credit(100000, 5, 6, false)];
    assert_eq!(history_weight(&credits), Some(69_000_000));
    assert_eq!(history_weight(&vec![credit(100000, 5, 6, false)]), Some(-3_000_000));
    assert_eq!(history_weight(&vec![]), Some(0));
    assert_eq!(history_weight(&vec![credit(u128::MAX, 2, 1, true)]), None);
    assert_eq!(history_weight(&vec![credit(u128::MAX, 1, 2, true)]), None);
    assert_eq!(history_weight(&vec![credit(u128::MAX, 1, 1, true)]), None);
    assert_eq!(history_weight(&vec![credit(u128::MAX / 2, 1, 1, true)]), Some(i128::MAX));
}

#[test]
fn calculate_score_weighs_credits_debts_and_their_number() {
    let history = History {
        debts: Some(100000),
        credits: vec![
            credit(1000000, 6, 12, true),
            credit(100000, 5, 6, false),
            credit(500000, 10, 9, false),
            credit(200000, 7, 6, true),
            credit(150000, 10, 12, true),
        ],
    };
    assert_eq!(calculate_score(&history, 1000), Some(258));
    // points: 25200000 - 33334 + 5 = 25166671; score: 25166671 / 100
    assert_eq!(calculate_score(&history, 1), Some(251_666));
    // odd balance: 7 / 2 + 7 % 2 = 4 points; plus 10 / 5 = 2
    let odd = History { debts: None, credits: vec![credit(7, 1, 1, true)] };
    assert_eq!(calculate_score(&odd, 10), None);
    let odd = History { debts: None, credits: vec![credit(7000, 1, 1, true)] };
    // points 3500 + 2 = 3502; (350 + 2) / 100 = 3
    assert_eq!(calculate_score(&odd, 10), Some(3));
}

#[test]
fn calculate_score_gives_none_without_a_usable_score() {
    let none = History { debts: None, credits: vec![] };
    assert_eq!(calculate_score(&none, 1000), None);
    let indebted = History { debts: Some(1_000_000_000), credits: vec![credit(7000, 1, 1, true)] };
    assert_eq!(calculate_score(&indebted, 10), None);
    let fine = History { debts: None, credits: vec![credit(7000, 1, 1, true)] };
    assert_eq!(calculate_score(&fine, 0), None);
    let two = History { debts: None, credits: vec![credit(7000, 1, 1, true), credit(1, 1, 1, true)] };
    assert_eq!(calculate_score(&two, u128::MAX), None);
    let huge = History { debts: None, credits: vec![credit(u128::MAX, 2, 1, true)] };
    assert_eq!(calculate_score(&huge, 10), None);
}
