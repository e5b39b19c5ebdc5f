//! The primes that divide a number `2^n - 1` with `n` up to 31, and the primes
//! that their primality rests on.

use crate::divisors::{is_prime, lemma_prime_by_trial, lemma_product_push, product};
use crate::residues::{lemma_power_mod_chain, lemma_prime_by_order, power_mod};
use vstd::prelude::*;

verus! {

/// 2 is prime.
pub proof fn lemma_prime_2()
    ensures
        is_prime(2),
{
    lemma_prime_by_trial(2, 1);
}

/// 3 is prime.
pub proof fn lemma_prime_3()
    ensures
        is_prime(3),
{
    lemma_prime_by_trial(3, 1);
}

/// No number from 2 to 2 divides 5.
proof fn lemma_sieve_5_from_2(d: int)
    requires
        2 <= d <= 2,
    ensures
        5int % d != 0,
{
    if d == 2 {
        assert(5int % 2 != 0);
    }
}

/// 5 is prime.
pub proof fn lemma_prime_5()
    ensures
        is_prime(5),
{
    assert forall|d: int| 2 <= d <= 2 implies #[trigger] (5int % d) != 0 by {
        lemma_sieve_5_from_2(d);
    }
    lemma_prime_by_trial(5, 2);
}

/// No number from 2 to 2 divides 7.
proof fn lemma_sieve_7_from_2(d: int)
    requires
        2 <= d <= 2,
    ensures
        7int % d != 0,
{
    if d == 2 {
        assert(7int % 2 != 0);
    }
}

/// 7 is prime.
pub proof fn lemma_prime_7()
    ensures
        is_prime(7),
{
    assert forall|d: int| 2 <= d <= 2 implies #[trigger] (7int % d) != 0 by {
        lemma_sieve_7_from_2(d);
    }
    lemma_prime_by_trial(7, 2);
}

/// No number from 2 to 3 divides 11.
proof fn lemma_sieve_11_from_2(d: int)
    requires
        2 <= d <= 3,
    ensures
        11int % d != 0,
{
    if d == 2 {
        assert(11int % 2 != 0);
    } else {
        assert(11int % 3 != 0);
    }
}

/// 11 is prime.
pub proof fn lemma_prime_11()
    ensures
        is_prime(11),
{
    assert forall|d: int| 2 <= d <= 3 implies #[trigger] (11int % d) != 0 by {
        lemma_sieve_11_from_2(d);
    }
    lemma_prime_by_trial(11, 3);
}

/// No number from 2 to 3 divides 13.
proof fn lemma_sieve_13_from_2(d: int)
    requires
        2 <= d <= 3,
    ensures
        13int % d != 0,
{
    if d == 2 {
        assert(13int % 2 != 0);
    } else {
        assert(13int % 3 != 0);
    }
}

/// 13 is prime.
pub proof fn lemma_prime_13()
    ensures
        is_prime(13),
{
    assert forall|d: int| 2 <= d <= 3 implies #[trigger] (13int % d) != 0 by {
        lemma_sieve_13_from_2(d);
    }
    lemma_prime_by_trial(13, 3);
}

/// No number from 2 to 4 divides 17.
proof fn lemma_sieve_17_from_2(d: int)
    requires
        2 <= d <= 4,
    ensures
        17int % d != 0,
{
    if d == 2 {
        assert(17int % 2 != 0);
    } else if d == 3 {
        assert(17int % 3 != 0);
    } else {
        assert(17int % 4 != 0);
    }
}

/// 17 is prime.
pub proof fn lemma_prime_17()
    ensures
        is_prime(17),
{
    assert forall|d: int| 2 <= d <= 4 implies #[trigger] (17int % d) != 0 by {
        lemma_sieve_17_from_2(d);
    }
    lemma_prime_by_trial(17, 4);
}

/// No number from 2 to 4 divides 19.
proof fn lemma_sieve_19_from_2(d: int)
    requires
        2 <= d <= 4,
    ensures
        19int % d != 0,
{
    if d == 2 {
        assert(19int % 2 != 0);
    } else if d == 3 {
        assert(19int % 3 != 0);
    } else {
        assert(19int % 4 != 0);
    }
}

/// 19 is prime.
pub proof fn lemma_prime_19()
    ensures
        is_prime(19),
{
    assert forall|d: int| 2 <= d <= 4 implies #[trigger] (19int % d) != 0 by {
        lemma_sieve_19_from_2(d);
    }
    lemma_prime_by_trial(19, 4);
}

/// No number from 2 to 4 divides 23.
proof fn lemma_sieve_23_from_2(d: int)
    requires
        2 <= d <= 4,
    ensures
        23int % d != 0,
{
    if d == 2 {
        assert(23int % 2 != 0);
    } else if d == 3 {
        assert(23int % 3 != 0);
    } else {
        assert(23int % 4 != 0);
    }
}

/// 23 is prime.
pub proof fn lemma_prime_23()
    ensures
        is_prime(23),
{
    assert forall|d: int| 2 <= d <= 4 implies #[trigger] (23int % d) != 0 by {
        lemma_sieve_23_from_2(d);
    }
    lemma_prime_by_trial(23, 4);
}

/// No number from 2 to 5 divides 29.
proof fn lemma_sieve_29_from_2(d: int)
    requires
        2 <= d <= 5,
    ensures
        29int % d != 0,
{
    if d == 2 {
        assert(29int % 2 != 0);
    } else if d == 3 {
        assert(29int % 3 != 0);
    } else if d == 4 {
        assert(29int % 4 != 0);
    } else {
        assert(29int % 5 != 0);
    }
}

/// 29 is prime.
pub proof fn lemma_prime_29()
    ensures
        is_prime(29),
{
    assert forall|d: int| 2 <= d <= 5 implies #[trigger] (29int % d) != 0 by {
        lemma_sieve_29_from_2(d);
    }
    lemma_prime_by_trial(29, 5);
}

/// No number from 2 to 5 divides 31.
proof fn lemma_sieve_31_from_2(d: int)
    requires
        2 <= d <= 5,
    ensures
        31int % d != 0,
{
    if d == 2 {
        assert(31int % 2 != 0);
    } else if d == 3 {
        assert(31int % 3 != 0);
    } else if d == 4 {
        assert(31int % 4 != 0);
    } else {
        assert(31int % 5 != 0);
    }
}

/// 31 is prime.
pub proof fn lemma_prime_31()
    ensures
        is_prime(31),
{
    assert forall|d: int| 2 <= d <= 5 implies #[trigger] (31int % d) != 0 by {
        lemma_sieve_31_from_2(d);
    }
    lemma_prime_by_trial(31, 5);
}

/// No number from 2 to 6 divides 41.
proof fn lemma_sieve_41_from_2(d: int)
    requires
        2 <= d <= 6,
    ensures
        41int % d != 0,
{
    if d <= 4 {
        if d == 2 {
            assert(41int % 2 != 0);
        } else if d == 3 {
            assert(41int % 3 != 0);
        } else {
            assert(41int % 4 != 0);
        }
    } else {
        if d == 5 {
            assert(41int % 5 != 0);
        } else {
            assert(41int % 6 != 0);
        }
    }
}

/// 41 is prime.
pub proof fn lemma_prime_41()
    ensures
        is_prime(41),
{
    assert forall|d: int| 2 <= d <= 6 implies #[trigger] (41int % d) != 0 by {
        lemma_sieve_41_from_2(d);
    }
    lemma_prime_by_trial(41, 6);
}

/// No number from 2 to 6 divides 43.
proof fn lemma_sieve_43_from_2(d: int)
    requires
        2 <= d <= 6,
    ensures
        43int % d != 0,
{
    if d <= 4 {
        if d == 2 {
            assert(43int % 2 != 0);
        } else if d == 3 {
            assert(43int % 3 != 0);
        } else {
            assert(43int % 4 != 0);
        }
    } else {
        if d == 5 {
            assert(43int % 5 != 0);
        } else {
            assert(43int % 6 != 0);
        }
    }
}

/// 43 is prime.
pub proof fn lemma_prime_43()
    ensures
        is_prime(43),
{
    assert forall|d: int| 2 <= d <= 6 implies #[trigger] (43int % d) != 0 by {
        lemma_sieve_43_from_2(d);
    }
    lemma_prime_by_trial(43, 6);
}

/// No number from 2 to 6 divides 47.
proof fn lemma_sieve_47_from_2(d: int)
    requires
        2 <= d <= 6,
    ensures
        47int % d != 0,
{
    if d <= 4 {
        if d == 2 {
            assert(47int % 2 != 0);
        } else if d == 3 {
            assert(47int % 3 != 0);
        } else {
            assert(47int % 4 != 0);
        }
    } else {
        if d == 5 {
            assert(47int % 5 != 0);
        } else {
            assert(47int % 6 != 0);
        }
    }
}

/// 47 is prime.
pub proof fn lemma_prime_47()
    ensures
        is_prime(47),
{
    assert forall|d: int| 2 <= d <= 6 implies #[trigger] (47int % d) != 0 by {
        lemma_sieve_47_from_2(d);
    }
    lemma_prime_by_trial(47, 6);
}

/// No number from 2 to 8 divides 73.
proof fn lemma_sieve_73_from_2(d: int)
    requires
        2 <= d <= 8,
    ensures
        73int % d != 0,
{
    if d <= 5 {
        if d == 2 {
            assert(73int % 2 != 0);
        } else if d == 3 {
            assert(73int % 3 != 0);
        } else if d == 4 {
            assert(73int % 4 != 0);
        } else {
            assert(73int % 5 != 0);
        }
    } else {
        if d == 6 {
            assert(73int % 6 != 0);
        } else if d == 7 {
            assert(73int % 7 != 0);
        } else {
            assert(73int % 8 != 0);
        }
    }
}

/// 73 is prime.
pub proof fn lemma_prime_73()
    ensures
        is_prime(73),
{
    assert forall|d: int| 2 <= d <= 8 implies #[trigger] (73int % d) != 0 by {
        lemma_sieve_73_from_2(d);
    }
    lemma_prime_by_trial(73, 8);
}

/// No number from 2 to 9 divides 89.
proof fn lemma_sieve_89_from_2(d: int)
    requires
        2 <= d <= 9,
    ensures
        89int % d != 0,
{
    if d <= 5 {
        if d == 2 {
            assert(89int % 2 != 0);
        } else if d == 3 {
            assert(89int % 3 != 0);
        } else if d == 4 {
            assert(89int % 4 != 0);
        } else {
            assert(89int % 5 != 0);
        }
    } else {
        if d == 6 {
            assert(89int % 6 != 0);
        } else if d == 7 {
            assert(89int % 7 != 0);
        } else if d == 8 {
            assert(89int % 8 != 0);
        } else {
            assert(89int % 9 != 0);
        }
    }
}

/// 89 is prime.
pub proof fn lemma_prime_89()
    ensures
        is_prime(89),
{
    assert forall|d: int| 2 <= d <= 9 implies #[trigger] (89int % d) != 0 by {
        lemma_sieve_89_from_2(d);
    }
    lemma_prime_by_trial(89, 9);
}

/// No number from 2 to 9 divides 97.
proof fn lemma_sieve_97_from_2(d: int)
    requires
        2 <= d <= 9,
    ensures
        97int % d != 0,
{
    if d <= 5 {
        if d == 2 {
            assert(97int % 2 != 0);
        } else if d == 3 {
            assert(97int % 3 != 0);
        } else if d == 4 {
            assert(97int % 4 != 0);
        } else {
            assert(97int % 5 != 0);
        }
    } else {
        if d == 6 {
            assert(97int % 6 != 0);
        } else if d == 7 {
            assert(97int % 7 != 0);
        } else if d == 8 {
            assert(97int % 8 != 0);
        } else {
            assert(97int % 9 != 0);
        }
    }
}

/// 97 is prime.
pub proof fn lemma_prime_97()
    ensures
        is_prime(97),
{
    assert forall|d: int| 2 <= d <= 9 implies #[trigger] (97int % d) != 0 by {
        lemma_sieve_97_from_2(d);
    }
    lemma_prime_by_trial(97, 9);
}

/// No number from 2 to 10 divides 113.
proof fn lemma_sieve_113_from_2(d: int)
    requires
        2 <= d <= 10,
    ensures
        113int % d != 0,
{
    if d <= 6 {
        if d <= 4 {
            if d == 2 {
                assert(113int % 2 != 0);
            } else if d == 3 {
                assert(113int % 3 != 0);
            } else {
                assert(113int % 4 != 0);
            }
        } else {
            if d == 5 {
                assert(113int % 5 != 0);
            } else {
                assert(113int % 6 != 0);
            }
        }
    } else {
        if d == 7 {
            assert(113int % 7 != 0);
        } else if d == 8 {
            assert(113int % 8 != 0);
        } else if d == 9 {
            assert(113int % 9 != 0);
        } else {
            assert(113int % 10 != 0);
        }
    }
}

/// 113 is prime.
pub proof fn lemma_prime_113()
    ensures
        is_prime(113),
{
    assert forall|d: int| 2 <= d <= 10 implies #[trigger] (113int % d) != 0 by {
        lemma_sieve_113_from_2(d);
    }
    lemma_prime_by_trial(113, 10);
}

/// No number from 2 to 11 divides 127.
proof fn lemma_sieve_127_from_2(d: int)
    requires
        2 <= d <= 11,
    ensures
        127int % d != 0,
{
    if d <= 6 {
        if d <= 4 {
            if d == 2 {
                assert(127int % 2 != 0);
            } else if d == 3 {
                assert(127int % 3 != 0);
            } else {
                assert(127int % 4 != 0);
            }
        } else {
            if d == 5 {
                assert(127int % 5 != 0);
            } else {
                assert(127int % 6 != 0);
            }
        }
    } else {
        if d <= 9 {
            if d == 7 {
                assert(127int % 7 != 0);
            } else if d == 8 {
                assert(127int % 8 != 0);
            } else {
                assert(127int % 9 != 0);
            }
        } else {
            if d == 10 {
                assert(127int % 10 != 0);
            } else {
                assert(127int % 11 != 0);
            }
        }
    }
}

/// 127 is prime.
pub proof fn lemma_prime_127()
    ensures
        is_prime(127),
{
    assert forall|d: int| 2 <= d <= 11 implies #[trigger] (127int % d) != 0 by {
        lemma_sieve_127_from_2(d);
    }
    lemma_prime_by_trial(127, 11);
}

/// No number from 2 to 12 divides 151.
proof fn lemma_sieve_151_from_2(d: int)
    requires
        2 <= d <= 12,
    ensures
        151int % d != 0,
{
    if d <= 7 {
        if d <= 4 {
            if d == 2 {
                assert(151int % 2 != 0);
            } else if d == 3 {
                assert(151int % 3 != 0);
            } else {
                assert(151int % 4 != 0);
            }
        } else {
            if d == 5 {
                assert(151int % 5 != 0);
            } else if d == 6 {
                assert(151int % 6 != 0);
            } else {
                assert(151int % 7 != 0);
            }
        }
    } else {
        if d <= 10 {
            if d == 8 {
                assert(151int % 8 != 0);
            } else if d == 9 {
                assert(151int % 9 != 0);
            } else {
                assert(151int % 10 != 0);
            }
        } else {
            if d == 11 {
                assert(151int % 11 != 0);
            } else {
                assert(151int % 12 != 0);
            }
        }
    }
}

/// 151 is prime.
pub proof fn lemma_prime_151()
    ensures
        is_prime(151),
{
    assert forall|d: int| 2 <= d <= 12 implies #[trigger] (151int % d) != 0 by {
        lemma_sieve_151_from_2(d);
    }
    lemma_prime_by_trial(151, 12);
}

/// No number from 2 to 15 divides 233.
proof fn lemma_sieve_233_from_2(d: int)
    requires
        2 <= d <= 15,
    ensures
        233int % d != 0,
{
    if d <= 8 {
        if d <= 5 {
            if d == 2 {
                assert(233int % 2 != 0);
            } else if d == 3 {
                assert(233int % 3 != 0);
            } else if d == 4 {
                assert(233int % 4 != 0);
            } else {
                assert(233int % 5 != 0);
            }
        } else {
            if d == 6 {
                assert(233int % 6 != 0);
            } else if d == 7 {
                assert(233int % 7 != 0);
            } else {
                assert(233int % 8 != 0);
            }
        }
    } else {
        if d <= 12 {
            if d == 9 {
                assert(233int % 9 != 0);
            } else if d == 10 {
                assert(233int % 10 != 0);
            } else if d == 11 {
                assert(233int % 11 != 0);
            } else {
                assert(233int % 12 != 0);
            }
        } else {
            if d == 13 {
                assert(233int % 13 != 0);
            } else if d == 14 {
                assert(233int % 14 != 0);
            } else {
                assert(233int % 15 != 0);
            }
        }
    }
}

/// 233 is prime.
pub proof fn lemma_prime_233()
    ensures
        is_prime(233),
{
    assert forall|d: int| 2 <= d <= 15 implies #[trigger] (233int % d) != 0 by {
        lemma_sieve_233_from_2(d);
    }
    lemma_prime_by_trial(233, 15);
}

/// No number from 2 to 15 divides 241.
proof fn lemma_sieve_241_from_2(d: int)
    requires
        2 <= d <= 15,
    ensures
        241int % d != 0,
{
    if d <= 8 {
        if d <= 5 {
            if d == 2 {
                assert(241int % 2 != 0);
            } else if d == 3 {
                assert(241int % 3 != 0);
            } else if d == 4 {
                assert(241int % 4 != 0);
            } else {
                assert(241int % 5 != 0);
            }
        } else {
            if d == 6 {
                assert(241int % 6 != 0);
            } else if d == 7 {
                assert(241int % 7 != 0);
            } else {
                assert(241int % 8 != 0);
            }
        }
    } else {
        if d <= 12 {
            if d == 9 {
                assert(241int % 9 != 0);
            } else if d == 10 {
                assert(241int % 10 != 0);
            } else if d == 11 {
                assert(241int % 11 != 0);
            } else {
                assert(241int % 12 != 0);
            }
        } else {
            if d == 13 {
                assert(241int % 13 != 0);
            } else if d == 14 {
                assert(241int % 14 != 0);
            } else {
                assert(241int % 15 != 0);
            }
        }
    }
}

/// 241 is prime.
pub proof fn lemma_prime_241()
    ensures
        is_prime(241),
{
    assert forall|d: int| 2 <= d <= 15 implies #[trigger] (241int % d) != 0 by {
        lemma_sieve_241_from_2(d);
    }
    lemma_prime_by_trial(241, 15);
}

/// No number from 2 to 16 divides 257.
proof fn lemma_sieve_257_from_2(d: int)
    requires
        2 <= d <= 16,
    ensures
        257int % d != 0,
{
    if d <= 9 {
        if d <= 5 {
            if d == 2 {
                assert(257int % 2 != 0);
            } else if d == 3 {
                assert(257int % 3 != 0);
            } else if d == 4 {
                assert(257int % 4 != 0);
            } else {
                assert(257int % 5 != 0);
            }
        } else {
            if d == 6 {
                assert(257int % 6 != 0);
            } else if d == 7 {
                assert(257int % 7 != 0);
            } else if d == 8 {
                assert(257int % 8 != 0);
            } else {
                assert(257int % 9 != 0);
            }
        }
    } else {
        if d <= 13 {
            if d == 10 {
                assert(257int % 10 != 0);
            } else if d == 11 {
                assert(257int % 11 != 0);
            } else if d == 12 {
                assert(257int % 12 != 0);
            } else {
                assert(257int % 13 != 0);
            }
        } else {
            if d == 14 {
                assert(257int % 14 != 0);
            } else if d == 15 {
                assert(257int % 15 != 0);
            } else {
                assert(257int % 16 != 0);
            }
        }
    }
}

/// 257 is prime.
pub proof fn lemma_prime_257()
    ensures
        is_prime(257),
{
    assert forall|d: int| 2 <= d <= 16 implies #[trigger] (257int % d) != 0 by {
        lemma_sieve_257_from_2(d);
    }
    lemma_prime_by_trial(257, 16);
}

/// No number from 2 to 18 divides 331.
proof fn lemma_sieve_331_from_2(d: int)
    requires
        2 <= d <= 18,
    ensures
        331int % d != 0,
{
    if d <= 10 {
        if d <= 6 {
            if d <= 4 {
                if d == 2 {
                    assert(331int % 2 != 0);
                } else if d == 3 {
                    assert(331int % 3 != 0);
                } else {
                    assert(331int % 4 != 0);
                }
            } else {
                if d == 5 {
                    assert(331int % 5 != 0);
                } else {
                    assert(331int % 6 != 0);
                }
            }
        } else {
            if d == 7 {
                assert(331int % 7 != 0);
            } else if d == 8 {
                assert(331int % 8 != 0);
            } else if d == 9 {
                assert(331int % 9 != 0);
            } else {
                assert(331int % 10 != 0);
            }
        }
    } else {
        if d <= 14 {
            if d == 11 {
                assert(331int % 11 != 0);
            } else if d == 12 {
                assert(331int % 12 != 0);
            } else if d == 13 {
                assert(331int % 13 != 0);
            } else {
                assert(331int % 14 != 0);
            }
        } else {
            if d == 15 {
                assert(331int % 15 != 0);
            } else if d == 16 {
                assert(331int % 16 != 0);
            } else if d == 17 {
                assert(331int % 17 != 0);
            } else {
                assert(331int % 18 != 0);
            }
        }
    }
}

/// 331 is prime.
pub proof fn lemma_prime_331()
    ensures
        is_prime(331),
{
    assert forall|d: int| 2 <= d <= 18 implies #[trigger] (331int % d) != 0 by {
        lemma_sieve_331_from_2(d);
    }
    lemma_prime_by_trial(331, 18);
}

/// No number from 2 to 18 divides 337.
proof fn lemma_sieve_337_from_2(d: int)
    requires
        2 <= d <= 18,
    ensures
        337int % d != 0,
{
    if d <= 10 {
        if d <= 6 {
            if d <= 4 {
                if d == 2 {
                    assert(337int % 2 != 0);
                } else if d == 3 {
                    assert(337int % 3 != 0);
                } else {
                    assert(337int % 4 != 0);
                }
            } else {
                if d == 5 {
                    assert(337int % 5 != 0);
                } else {
                    assert(337int % 6 != 0);
                }
            }
        } else {
            if d == 7 {
                assert(337int % 7 != 0);
            } else if d == 8 {
                assert(337int % 8 != 0);
            } else if d == 9 {
                assert(337int % 9 != 0);
            } else {
                assert(337int % 10 != 0);
            }
        }
    } else {
        if d <= 14 {
            if d == 11 {
                assert(337int % 11 != 0);
            } else if d == 12 {
                assert(337int % 12 != 0);
            } else if d == 13 {
                assert(337int % 13 != 0);
            } else {
                assert(337int % 14 != 0);
            }
        } else {
            if d == 15 {
                assert(337int % 15 != 0);
            } else if d == 16 {
                assert(337int % 16 != 0);
            } else if d == 17 {
                assert(337int % 17 != 0);
            } else {
                assert(337int % 18 != 0);
            }
        }
    }
}

/// 337 is prime.
pub proof fn lemma_prime_337()
    ensures
        is_prime(337),
{
    assert forall|d: int| 2 <= d <= 18 implies #[trigger] (337int % d) != 0 by {
        lemma_sieve_337_from_2(d);
    }
    lemma_prime_by_trial(337, 18);
}

/// No number from 2 to 24 divides 601.
proof fn lemma_sieve_601_from_2(d: int)
    requires
        2 <= d <= 24,
    ensures
        601int % d != 0,
{
    if d <= 13 {
        if d <= 7 {
            if d <= 4 {
                if d == 2 {
                    assert(601int % 2 != 0);
                } else if d == 3 {
                    assert(601int % 3 != 0);
                } else {
                    assert(601int % 4 != 0);
                }
            } else {
                if d == 5 {
                    assert(601int % 5 != 0);
                } else if d == 6 {
                    assert(601int % 6 != 0);
                } else {
                    assert(601int % 7 != 0);
                }
            }
        } else {
            if d <= 10 {
                if d == 8 {
                    assert(601int % 8 != 0);
                } else if d == 9 {
                    assert(601int % 9 != 0);
                } else {
                    assert(601int % 10 != 0);
                }
            } else {
                if d == 11 {
                    assert(601int % 11 != 0);
                } else if d == 12 {
                    assert(601int % 12 != 0);
                } else {
                    assert(601int % 13 != 0);
                }
            }
        }
    } else {
        if d <= 19 {
            if d <= 16 {
                if d == 14 {
                    assert(601int % 14 != 0);
                } else if d == 15 {
                    assert(601int % 15 != 0);
                } else {
                    assert(601int % 16 != 0);
                }
            } else {
                if d == 17 {
                    assert(601int % 17 != 0);
                } else if d == 18 {
                    assert(601int % 18 != 0);
                } else {
                    assert(601int % 19 != 0);
                }
            }
        } else {
            if d <= 22 {
                if d == 20 {
                    assert(601int % 20 != 0);
                } else if d == 21 {
                    assert(601int % 21 != 0);
                } else {
                    assert(601int % 22 != 0);
                }
            } else {
                if d == 23 {
                    assert(601int % 23 != 0);
                } else {
                    assert(601int % 24 != 0);
                }
            }
        }
    }
}

/// 601 is prime.
pub proof fn lemma_prime_601()
    ensures
        is_prime(601),
{
    assert forall|d: int| 2 <= d <= 24 implies #[trigger] (601int % d) != 0 by {
        lemma_sieve_601_from_2(d);
    }
    lemma_prime_by_trial(601, 24);
}

/// No number from 2 to 26 divides 683.
proof fn lemma_sieve_683_from_2(d: int)
    requires
        2 <= d <= 26,
    ensures
        683int % d != 0,
{
    if d <= 14 {
        if d <= 8 {
            if d <= 5 {
                if d == 2 {
                    assert(683int % 2 != 0);
                } else if d == 3 {
                    assert(683int % 3 != 0);
                } else if d == 4 {
                    assert(683int % 4 != 0);
                } else {
                    assert(683int % 5 != 0);
                }
            } else {
                if d == 6 {
                    assert(683int % 6 != 0);
                } else if d == 7 {
                    assert(683int % 7 != 0);
                } else {
                    assert(683int % 8 != 0);
                }
            }
        } else {
            if d <= 11 {
                if d == 9 {
                    assert(683int % 9 != 0);
                } else if d == 10 {
                    assert(683int % 10 != 0);
                } else {
                    assert(683int % 11 != 0);
                }
            } else {
                if d == 12 {
                    assert(683int % 12 != 0);
                } else if d == 13 {
                    assert(683int % 13 != 0);
                } else {
                    assert(683int % 14 != 0);
                }
            }
        }
    } else {
        if d <= 20 {
            if d <= 17 {
                if d == 15 {
                    assert(683int % 15 != 0);
                } else if d == 16 {
                    assert(683int % 16 != 0);
                } else {
                    assert(683int % 17 != 0);
                }
            } else {
                if d == 18 {
                    assert(683int % 18 != 0);
                } else if d == 19 {
                    assert(683int % 19 != 0);
                } else {
                    assert(683int % 20 != 0);
                }
            }
        } else {
            if d <= 23 {
                if d == 21 {
                    assert(683int % 21 != 0);
                } else if d == 22 {
                    assert(683int % 22 != 0);
                } else {
                    assert(683int % 23 != 0);
                }
            } else {
                if d == 24 {
                    assert(683int % 24 != 0);
                } else if d == 25 {
                    assert(683int % 25 != 0);
                } else {
                    assert(683int % 26 != 0);
                }
            }
        }
    }
}

/// 683 is prime.
pub proof fn lemma_prime_683()
    ensures
        is_prime(683),
{
    assert forall|d: int| 2 <= d <= 26 implies #[trigger] (683int % d) != 0 by {
        lemma_sieve_683_from_2(d);
    }
    lemma_prime_by_trial(683, 26);
}

/// The powers of 5 modulo 1103 whose exponents are powers of two.
proof fn lemma_squares_mod_1103()
    ensures
        power_mod(5, 1, 1103) == 5,
        power_mod(5, 2, 1103) == 25,
        power_mod(5, 4, 1103) == 625,
        power_mod(5, 8, 1103) == 163,
        power_mod(5, 16, 1103) == 97,
        power_mod(5, 32, 1103) == 585,
        power_mod(5, 64, 1103) == 295,
        power_mod(5, 128, 1103) == 991,
        power_mod(5, 256, 1103) == 411,
        power_mod(5, 512, 1103) == 162,
        power_mod(5, 1024, 1103) == 875,
{
    assert(power_mod(5, 0, 1103) == 1);
    assert(power_mod(5, 1, 1103) == (power_mod(5, 0, 1103) * 5) % 1103);
    lemma_power_mod_chain(5, 1103, 1, 5, 1, 5, 25);
    lemma_power_mod_chain(5, 1103, 2, 25, 2, 25, 625);
    lemma_power_mod_chain(5, 1103, 4, 625, 4, 625, 163);
    lemma_power_mod_chain(5, 1103, 8, 163, 8, 163, 97);
    lemma_power_mod_chain(5, 1103, 16, 97, 16, 97, 585);
    lemma_power_mod_chain(5, 1103, 32, 585, 32, 585, 295);
    lemma_power_mod_chain(5, 1103, 64, 295, 64, 295, 991);
    lemma_power_mod_chain(5, 1103, 128, 991, 128, 991, 411);
    lemma_power_mod_chain(5, 1103, 256, 411, 256, 411, 162);
    lemma_power_mod_chain(5, 1103, 512, 162, 512, 162, 875);
}

/// The 1102-th power of 5 is 1 modulo 1103.
proof fn lemma_power_mod_1103_at_1102()
    ensures
        power_mod(5, 1102, 1103) == 1,
{
    lemma_squares_mod_1103();
    lemma_power_mod_chain(5, 1103, 2, 25, 4, 625, 183);
    lemma_power_mod_chain(5, 1103, 6, 183, 8, 163, 48);
    lemma_power_mod_chain(5, 1103, 14, 48, 64, 295, 924);
    lemma_power_mod_chain(5, 1103, 78, 924, 1024, 875, 1);
}

/// The 551-th power of 5 is not 1 modulo 1103.
proof fn lemma_power_mod_1103_at_551()
    ensures
        power_mod(5, 551, 1103) == 1102,
{
    lemma_squares_mod_1103();
    lemma_power_mod_chain(5, 1103, 1, 5, 2, 25, 125);
    lemma_power_mod_chain(5, 1103, 3, 125, 4, 625, 915);
    lemma_power_mod_chain(5, 1103, 7, 915, 32, 585, 320);
    lemma_power_mod_chain(5, 1103, 39, 320, 512, 162, 1102);
}

/// The 58-th power of 5 is not 1 modulo 1103.
proof fn lemma_power_mod_1103_at_58()
    ensures
        power_mod(5, 58, 1103) == 749,
{
    lemma_squares_mod_1103();
    lemma_power_mod_chain(5, 1103, 2, 25, 8, 163, 766);
    lemma_power_mod_chain(5, 1103, 10, 766, 16, 97, 401);
    lemma_power_mod_chain(5, 1103, 26, 401, 32, 585, 749);
}

/// The 38-th power of 5 is not 1 modulo 1103.
proof fn lemma_power_mod_1103_at_38()
    ensures
        power_mod(5, 38, 1103) == 64,
{
    lemma_squares_mod_1103();
    lemma_power_mod_chain(5, 1103, 2, 25, 4, 625, 183);
    lemma_power_mod_chain(5, 1103, 6, 183, 32, 585, 64);
}

/// 1103 is prime: 5 has order 1102 modulo it.
pub proof fn lemma_prime_1103()
    ensures
        is_prime(1103),
{
    lemma_power_mod_1103_at_1102();
    lemma_power_mod_1103_at_551();
    lemma_power_mod_1103_at_58();
    lemma_power_mod_1103_at_38();
    lemma_prime_2();
    lemma_prime_19();
    lemma_prime_29();
    let f0 = Seq::<nat>::empty();
    assert(product(f0) == 1);
    let f1 = f0.push(2);
    lemma_product_push(f0, 2);
    assert(product(f1) == 2);
    let f2 = f1.push(19);
    lemma_product_push(f1, 19);
    assert(product(f2) == 38);
    let f3 = f2.push(29);
    lemma_product_push(f2, 29);
    assert(product(f3) == 1102);
    let factors = f3;
    assert forall|j: int| 0 <= j < factors.len() implies power_mod(
        5,
        1102nat / #[trigger] factors[j],
        1103,
    ) != 1 by {
        if j == 0 {
            assert(factors[0] == 2);
            assert(1102nat / 2nat == 551);
        }
        if j == 1 {
            assert(factors[1] == 19);
            assert(1102nat / 19nat == 58);
        }
        if j == 2 {
            assert(factors[2] == 29);
            assert(1102nat / 29nat == 38);
        }
    }
    lemma_prime_by_order(1103, 5, factors);
}

/// The powers of 11 modulo 1801 whose exponents are powers of two.
proof fn lemma_squares_mod_1801()
    ensures
        power_mod(11, 1, 1801) == 11,
        power_mod(11, 2, 1801) == 121,
        power_mod(11, 4, 1801) == 233,
        power_mod(11, 8, 1801) == 259,
        power_mod(11, 16, 1801) == 444,
        power_mod(11, 32, 1801) == 827,
        power_mod(11, 64, 1801) == 1350,
        power_mod(11, 128, 1801) == 1689,
        power_mod(11, 256, 1801) == 1738,
        power_mod(11, 512, 1801) == 367,
        power_mod(11, 1024, 1801) == 1415,
{
    assert(power_mod(11, 0, 1801) == 1);
    assert(power_mod(11, 1, 1801) == (power_mod(11, 0, 1801) * 11) % 1801);
    lemma_power_mod_chain(11, 1801, 1, 11, 1, 11, 121);
    lemma_power_mod_chain(11, 1801, 2, 121, 2, 121, 233);
    lemma_power_mod_chain(11, 1801, 4, 233, 4, 233, 259);
    lemma_power_mod_chain(11, 1801, 8, 259, 8, 259, 444);
    lemma_power_mod_chain(11, 1801, 16, 444, 16, 444, 827);
    lemma_power_mod_chain(11, 1801, 32, 827, 32, 827, 1350);
    lemma_power_mod_chain(11, 1801, 64, 1350, 64, 1350, 1689);
    lemma_power_mod_chain(11, 1801, 128, 1689, 128, 1689, 1738);
    lemma_power_mod_chain(11, 1801, 256, 1738, 256, 1738, 367);
    lemma_power_mod_chain(11, 1801, 512, 367, 512, 367, 1415);
}

/// The 1800-th power of 11 is 1 modulo 1801.
proof fn lemma_power_mod_1801_at_1800()
    ensures
        power_mod(11, 1800, 1801) == 1,
{
    lemma_squares_mod_1801();
    lemma_power_mod_chain(11, 1801, 8, 259, 256, 1738, 1693);
    lemma_power_mod_chain(11, 1801, 264, 1693, 512, 367, 1787);
    lemma_power_mod_chain(11, 1801, 776, 1787, 1024, 1415, 1);
}

/// The 900-th power of 11 is not 1 modulo 1801.
proof fn lemma_power_mod_1801_at_900()
    ensures
        power_mod(11, 900, 1801) == 1800,
{
    lemma_squares_mod_1801();
    lemma_power_mod_chain(11, 1801, 4, 233, 128, 1689, 919);
    lemma_power_mod_chain(11, 1801, 132, 919, 256, 1738, 1536);
    lemma_power_mod_chain(11, 1801, 388, 1536, 512, 367, 1800);
}

/// The 600-th power of 11 is not 1 modulo 1801.
proof fn lemma_power_mod_1801_at_600()
    ensures
        power_mod(11, 600, 1801) == 1727,
{
    lemma_squares_mod_1801();
    lemma_power_mod_chain(11, 1801, 8, 259, 16, 444, 1533);
    lemma_power_mod_chain(11, 1801, 24, 1533, 64, 1350, 201);
    lemma_power_mod_chain(11, 1801, 88, 201, 512, 367, 1727);
}

/// The 360-th power of 11 is not 1 modulo 1801.
proof fn lemma_power_mod_1801_at_360()
    ensures
        power_mod(11, 360, 1801) == 350,
{
    lemma_squares_mod_1801();
    lemma_power_mod_chain(11, 1801, 8, 259, 32, 827, 1675);
    lemma_power_mod_chain(11, 1801, 40, 1675, 64, 1350, 995);
    lemma_power_mod_chain(11, 1801, 104, 995, 256, 1738, 350);
}

/// 1801 is prime: 11 has order 1800 modulo it.
pub proof fn lemma_prime_1801()
    ensures
        is_prime(1801),
{
    lemma_power_mod_1801_at_1800();
    lemma_power_mod_1801_at_900();
    lemma_power_mod_1801_at_600();
    lemma_power_mod_1801_at_360();
    lemma_prime_2();
    lemma_prime_3();
    lemma_prime_5();
    let f0 = Seq::<nat>::empty();
    assert(product(f0) == 1);
    let f1 = f0.push(2);
    lemma_product_push(f0, 2);
    assert(product(f1) == 2);
    let f2 = f1.push(2);
    lemma_product_push(f1, 2);
    assert(product(f2) == 4);
    let f3 = f2.push(2);
    lemma_product_push(f2, 2);
    assert(product(f3) == 8);
    let f4 = f3.push(3);
    lemma_product_push(f3, 3);
    assert(product(f4) == 24);
    let f5 = f4.push(3);
    lemma_product_push(f4, 3);
    assert(product(f5) == 72);
    let f6 = f5.push(5);
    lemma_product_push(f5, 5);
    assert(product(f6) == 360);
    let f7 = f6.push(5);
    lemma_product_push(f6, 5);
    assert(product(f7) == 1800);
    let factors = f7;
    assert forall|j: int| 0 <= j < factors.len() implies power_mod(
        11,
        1800nat / #[trigger] factors[j],
        1801,
    ) != 1 by {
        if j == 0 {
            assert(factors[0] == 2);
            assert(1800nat / 2nat == 900);
        }
        if j == 1 {
            assert(factors[1] == 2);
            assert(1800nat / 2nat == 900);
        }
        if j == 2 {
            assert(factors[2] == 2);
            assert(1800nat / 2nat == 900);
        }
        if j == 3 {
            assert(factors[3] == 3);
            assert(1800nat / 3nat == 600);
        }
        if j == 4 {
            assert(factors[4] == 3);
            assert(1800nat / 3nat == 600);
        }
        if j == 5 {
            assert(factors[5] == 5);
            assert(1800nat / 5nat == 360);
        }
        if j == 6 {
            assert(factors[6] == 5);
            assert(1800nat / 5nat == 360);
        }
    }
    lemma_prime_by_order(1801, 11, factors);
}

/// The powers of 7 modulo 2089 whose exponents are powers of two.
proof fn lemma_squares_mod_2089()
    ensures
        power_mod(7, 1, 2089) == 7,
        power_mod(7, 2, 2089) == 49,
        power_mod(7, 4, 2089) == 312,
        power_mod(7, 8, 2089) == 1250,
        power_mod(7, 16, 2089) == 2017,
        power_mod(7, 32, 2089) == 1006,
        power_mod(7, 64, 2089) == 960,
        power_mod(7, 128, 2089) == 351,
        power_mod(7, 256, 2089) == 2039,
        power_mod(7, 512, 2089) == 411,
        power_mod(7, 1024, 2089) == 1801,
        power_mod(7, 2048, 2089) == 1473,
{
    assert(power_mod(7, 0, 2089) == 1);
    assert(power_mod(7, 1, 2089) == (power_mod(7, 0, 2089) * 7) % 2089);
    lemma_power_mod_chain(7, 2089, 1, 7, 1, 7, 49);
    lemma_power_mod_chain(7, 2089, 2, 49, 2, 49, 312);
    lemma_power_mod_chain(7, 2089, 4, 312, 4, 312, 1250);
    lemma_power_mod_chain(7, 2089, 8, 1250, 8, 1250, 2017);
    lemma_power_mod_chain(7, 2089, 16, 2017, 16, 2017, 1006);
    lemma_power_mod_chain(7, 2089, 32, 1006, 32, 1006, 960);
    lemma_power_mod_chain(7, 2089, 64, 960, 64, 960, 351);
    lemma_power_mod_chain(7, 2089, 128, 351, 128, 351, 2039);
    lemma_power_mod_chain(7, 2089, 256, 2039, 256, 2039, 411);
    lemma_power_mod_chain(7, 2089, 512, 411, 512, 411, 1801);
    lemma_power_mod_chain(7, 2089, 1024, 1801, 1024, 1801, 1473);
}

/// The 2088-th power of 7 is 1 modulo 2089.
proof fn lemma_power_mod_2089_at_2088()
    ensures
        power_mod(7, 2088, 2089) == 1,
{
    lemma_squares_mod_2089();
    lemma_power_mod_chain(7, 2089, 8, 1250, 32, 1006, 2011);
    lemma_power_mod_chain(7, 2089, 40, 2011, 2048, 1473, 1);
}

/// The 1044-th power of 7 is not 1 modulo 2089.
proof fn lemma_power_mod_2089_at_1044()
    ensures
        power_mod(7, 1044, 2089) == 2088,
{
    lemma_squares_mod_2089();
    lemma_power_mod_chain(7, 2089, 4, 312, 16, 2017, 515);
    lemma_power_mod_chain(7, 2089, 20, 515, 1024, 1801, 2088);
}

/// The 696-th power of 7 is not 1 modulo 2089.
proof fn lemma_power_mod_2089_at_696()
    ensures
        power_mod(7, 696, 2089) == 1262,
{
    lemma_squares_mod_2089();
    lemma_power_mod_chain(7, 2089, 8, 1250, 16, 2017, 1916);
    lemma_power_mod_chain(7, 2089, 24, 1916, 32, 1006, 1438);
    lemma_power_mod_chain(7, 2089, 56, 1438, 128, 351, 1289);
    lemma_power_mod_chain(7, 2089, 184, 1289, 512, 411, 1262);
}

/// The 72-th power of 7 is not 1 modulo 2089.
proof fn lemma_power_mod_2089_at_72()
    ensures
        power_mod(7, 72, 2089) == 914,
{
    lemma_squares_mod_2089();
    lemma_power_mod_chain(7, 2089, 8, 1250, 64, 960, 914);
}

/// 2089 is prime: 7 has order 2088 modulo it.
pub proof fn lemma_prime_2089()
    ensures
        is_prime(2089),
{
    lemma_power_mod_2089_at_2088();
    lemma_power_mod_2089_at_1044();
    lemma_power_mod_2089_at_696();
    lemma_power_mod_2089_at_72();
    lemma_prime_2();
    lemma_prime_3();
    lemma_prime_29();
    let f0 = Seq::<nat>::empty();
    assert(product(f0) == 1);
    let f1 = f0.push(2);
    lemma_product_push(f0, 2);
    assert(product(f1) == 2);
    let f2 = f1.push(2);
    lemma_product_push(f1, 2);
    assert(product(f2) == 4);
    let f3 = f2.push(2);
    lemma_product_push(f2, 2);
    assert(product(f3) == 8);
    let f4 = f3.push(3);
    lemma_product_push(f3, 3);
    assert(product(f4) == 24);
    let f5 = f4.push(3);
    lemma_product_push(f4, 3);
    assert(product(f5) == 72);
    let f6 = f5.push(29);
    lemma_product_push(f5, 29);
    assert(product(f6) == 2088);
    let factors = f6;
    assert forall|j: int| 0 <= j < factors.len() implies power_mod(
        7,
        2088nat / #[trigger] factors[j],
        2089,
    ) != 1 by {
        if j == 0 {
            assert(factors[0] == 2);
            assert(2088nat / 2nat == 1044);
        }
        if j == 1 {
            assert(factors[1] == 2);
            assert(2088nat / 2nat == 1044);
        }
        if j == 2 {
            assert(factors[2] == 2);
            assert(2088nat / 2nat == 1044);
        }
        if j == 3 {
            assert(factors[3] == 3);
            assert(2088nat / 3nat == 696);
        }
        if j == 4 {
            assert(factors[4] == 3);
            assert(2088nat / 3nat == 696);
        }
        if j == 5 {
            assert(factors[5] == 29);
            assert(2088nat / 29nat == 72);
        }
    }
    lemma_prime_by_order(2089, 7, factors);
}

/// The powers of 3 modulo 2731 whose exponents are powers of two.
proof fn lemma_squares_mod_2731()
    ensures
        power_mod(3, 1, 2731) == 3,
        power_mod(3, 2, 2731) == 9,
        power_mod(3, 4, 2731) == 81,
        power_mod(3, 8, 2731) == 1099,
        power_mod(3, 16, 2731) == 699,
        power_mod(3, 32, 2731) == 2483,
        power_mod(3, 64, 2731) == 1422,
        power_mod(3, 128, 2731) == 1144,
        power_mod(3, 256, 2731) == 587,
        power_mod(3, 512, 2731) == 463,
        power_mod(3, 1024, 2731) == 1351,
        power_mod(3, 2048, 2731) == 893,
{
    assert(power_mod(3, 0, 2731) == 1);
    assert(power_mod(3, 1, 2731) == (power_mod(3, 0, 2731) * 3) % 2731);
    lemma_power_mod_chain(3, 2731, 1, 3, 1, 3, 9);
    lemma_power_mod_chain(3, 2731, 2, 9, 2, 9, 81);
    lemma_power_mod_chain(3, 2731, 4, 81, 4, 81, 1099);
    lemma_power_mod_chain(3, 2731, 8, 1099, 8, 1099, 699);
    lemma_power_mod_chain(3, 2731, 16, 699, 16, 699, 2483);
    lemma_power_mod_chain(3, 2731, 32, 2483, 32, 2483, 1422);
    lemma_power_mod_chain(3, 2731, 64, 1422, 64, 1422, 1144);
    lemma_power_mod_chain(3, 2731, 128, 1144, 128, 1144, 587);
    lemma_power_mod_chain(3, 2731, 256, 587, 256, 587, 463);
    lemma_power_mod_chain(3, 2731, 512, 463, 512, 463, 1351);
    lemma_power_mod_chain(3, 2731, 1024, 1351, 1024, 1351, 893);
}

/// The 2730-th power of 3 is 1 modulo 2731.
proof fn lemma_power_mod_2731_at_2730()
    ensures
        power_mod(3, 2730, 2731) == 1,
{
    lemma_squares_mod_2731();
    lemma_power_mod_chain(3, 2731, 2, 9, 8, 1099, 1698);
    lemma_power_mod_chain(3, 2731, 10, 1698, 32, 2483, 2201);
    lemma_power_mod_chain(3, 2731, 42, 2201, 128, 1144, 2693);
    lemma_power_mod_chain(3, 2731, 170, 2693, 512, 463, 1523);
    lemma_power_mod_chain(3, 2731, 682, 1523, 2048, 893, 1);
}

/// The 1365-th power of 3 is not 1 modulo 2731.
proof fn lemma_power_mod_2731_at_1365()
    ensures
        power_mod(3, 1365, 2731) == 2730,
{
    lemma_squares_mod_2731();
    lemma_power_mod_chain(3, 2731, 1, 3, 4, 81, 243);
    lemma_power_mod_chain(3, 2731, 5, 243, 16, 699, 535);
    lemma_power_mod_chain(3, 2731, 21, 535, 64, 1422, 1552);
    lemma_power_mod_chain(3, 2731, 85, 1552, 256, 587, 1601);
    lemma_power_mod_chain(3, 2731, 341, 1601, 1024, 1351, 2730);
}

/// The 910-th power of 3 is not 1 modulo 2731.
proof fn lemma_power_mod_2731_at_910()
    ensures
        power_mod(3, 910, 2731) == 2284,
{
    lemma_squares_mod_2731();
    lemma_power_mod_chain(3, 2731, 2, 9, 4, 81, 729);
    lemma_power_mod_chain(3, 2731, 6, 729, 8, 1099, 988);
    lemma_power_mod_chain(3, 2731, 14, 988, 128, 1144, 2369);
    lemma_power_mod_chain(3, 2731, 142, 2369, 256, 587, 524);
    lemma_power_mod_chain(3, 2731, 398, 524, 512, 463, 2284);
}

/// The 546-th power of 3 is not 1 modulo 2731.
proof fn lemma_power_mod_2731_at_546()
    ensures
        power_mod(3, 546, 2731) == 1633,
{
    lemma_squares_mod_2731();
    lemma_power_mod_chain(3, 2731, 2, 9, 32, 2483, 499);
    lemma_power_mod_chain(3, 2731, 34, 499, 512, 463, 1633);
}

/// The 390-th power of 3 is not 1 modulo 2731.
proof fn lemma_power_mod_2731_at_390()
    ensures
        power_mod(3, 390, 2731) == 1238,
{
    lemma_squares_mod_2731();
    lemma_power_mod_chain(3, 2731, 2, 9, 4, 81, 729);
    lemma_power_mod_chain(3, 2731, 6, 729, 128, 1144, 1021);
    lemma_power_mod_chain(3, 2731, 134, 1021, 256, 587, 1238);
}

/// The 210-th power of 3 is not 1 modulo 2731.
proof fn lemma_power_mod_2731_at_210()
    ensures
        power_mod(3, 210, 2731) == 1024,
{
    lemma_squares_mod_2731();
    lemma_power_mod_chain(3, 2731, 2, 9, 16, 699, 829);
    lemma_power_mod_chain(3, 2731, 18, 829, 64, 1422, 1777);
    lemma_power_mod_chain(3, 2731, 82, 1777, 128, 1144, 1024);
}

/// 2731 is prime: 3 has order 2730 modulo it.
pub proof fn lemma_prime_2731()
    ensures
        is_prime(2731),
{
    lemma_power_mod_2731_at_2730();
    lemma_power_mod_2731_at_1365();
    lemma_power_mod_2731_at_910();
    lemma_power_mod_2731_at_546();
    lemma_power_mod_2731_at_390();
    lemma_power_mod_2731_at_210();
    lemma_prime_2();
    lemma_prime_3();
    lemma_prime_5();
    lemma_prime_7();
    lemma_prime_13();
    let f0 = Seq::<nat>::empty();
    assert(product(f0) == 1);
    let f1 = f0.push(2);
    lemma_product_push(f0, 2);
    assert(product(f1) == 2);
    let f2 = f1.push(3);
    lemma_product_push(f1, 3);
    assert(product(f2) == 6);
    let f3 = f2.push(5);
    lemma_product_push(f2, 5);
    assert(product(f3) == 30);
    let f4 = f3.push(7);
    lemma_product_push(f3, 7);
    assert(product(f4) == 210);
    let f5 = f4.push(13);
    lemma_product_push(f4, 13);
    assert(product(f5) == 2730);
    let factors = f5;
    assert forall|j: int| 0 <= j < factors.len() implies power_mod(
        3,
        2730nat / #[trigger] factors[j],
        2731,
    ) != 1 by {
        if j == 0 {
            assert(factors[0] == 2);
            assert(2730nat / 2nat == 1365);
        }
        if j == 1 {
            assert(factors[1] == 3);
            assert(2730nat / 3nat == 910);
        }
        if j == 2 {
            assert(factors[2] == 5);
            assert(2730nat / 5nat == 546);
        }
        if j == 3 {
            assert(factors[3] == 7);
            assert(2730nat / 7nat == 390);
        }
        if j == 4 {
            assert(factors[4] == 13);
            assert(2730nat / 13nat == 210);
        }
    }
    lemma_prime_by_order(2731, 3, factors);
}

/// The powers of 17 modulo 8191 whose exponents are powers of two.
proof fn lemma_squares_mod_8191()
    ensures
        power_mod(17, 1, 8191) == 17,
        power_mod(17, 2, 8191) == 289,
        power_mod(17, 4, 8191) == 1611,
        power_mod(17, 8, 8191) == 6965,
        power_mod(17, 16, 8191) == 4123,
        power_mod(17, 32, 8191) == 2804,
        power_mod(17, 64, 8191) == 7247,
        power_mod(17, 128, 8191) == 6508,
        power_mod(17, 256, 8191) == 6594,
        power_mod(17, 512, 8191) == 3008,
        power_mod(17, 1024, 8191) == 5200,
        power_mod(17, 2048, 8191) == 1509,
        power_mod(17, 4096, 8191) == 8174,
{
    assert(power_mod(17, 0, 8191) == 1);
    assert(power_mod(17, 1, 8191) == (power_mod(17, 0, 8191) * 17) % 8191);
    lemma_power_mod_chain(17, 8191, 1, 17, 1, 17, 289);
    lemma_power_mod_chain(17, 8191, 2, 289, 2, 289, 1611);
    lemma_power_mod_chain(17, 8191, 4, 1611, 4, 1611, 6965);
    lemma_power_mod_chain(17, 8191, 8, 6965, 8, 6965, 4123);
    lemma_power_mod_chain(17, 8191, 16, 4123, 16, 4123, 2804);
    lemma_power_mod_chain(17, 8191, 32, 2804, 32, 2804, 7247);
    lemma_power_mod_chain(17, 8191, 64, 7247, 64, 7247, 6508);
    lemma_power_mod_chain(17, 8191, 128, 6508, 128, 6508, 6594);
    lemma_power_mod_chain(17, 8191, 256, 6594, 256, 6594, 3008);
    lemma_power_mod_chain(17, 8191, 512, 3008, 512, 3008, 5200);
    lemma_power_mod_chain(17, 8191, 1024, 5200, 1024, 5200, 1509);
    lemma_power_mod_chain(17, 8191, 2048, 1509, 2048, 1509, 8174);
}

/// The 8190-th power of 17 is 1 modulo 8191.
proof fn lemma_power_mod_8191_at_8190()
    ensures
        power_mod(17, 8190, 8191) == 1,
{
    lemma_squares_mod_8191();
    lemma_power_mod_chain(17, 8191, 2, 289, 4, 1611, 6883);
    lemma_power_mod_chain(17, 8191, 6, 6883, 8, 6965, 6363);
    lemma_power_mod_chain(17, 8191, 14, 6363, 16, 4123, 7067);
    lemma_power_mod_chain(17, 8191, 30, 7067, 32, 2804, 1839);
    lemma_power_mod_chain(17, 8191, 62, 1839, 64, 7247, 476);
    lemma_power_mod_chain(17, 8191, 126, 476, 128, 6508, 1610);
    lemma_power_mod_chain(17, 8191, 254, 1610, 256, 6594, 804);
    lemma_power_mod_chain(17, 8191, 510, 804, 512, 3008, 2087);
    lemma_power_mod_chain(17, 8191, 1022, 2087, 1024, 5200, 7516);
    lemma_power_mod_chain(17, 8191, 2046, 7516, 2048, 1509, 5300);
    lemma_power_mod_chain(17, 8191, 4094, 5300, 4096, 8174, 1);
}

/// The 4095-th power of 17 is not 1 modulo 8191.
proof fn lemma_power_mod_8191_at_4095()
    ensures
        power_mod(17, 4095, 8191) == 8190,
{
    lemma_squares_mod_8191();
    lemma_power_mod_chain(17, 8191, 1, 17, 2, 289, 4913);
    lemma_power_mod_chain(17, 8191, 3, 4913, 4, 1611, 2337);
    lemma_power_mod_chain(17, 8191, 7, 2337, 8, 6965, 1688);
    lemma_power_mod_chain(17, 8191, 15, 1688, 16, 4123, 5465);
    lemma_power_mod_chain(17, 8191, 31, 5465, 32, 2804, 6690);
    lemma_power_mod_chain(17, 8191, 63, 6690, 64, 7247, 8092);
    lemma_power_mod_chain(17, 8191, 127, 8092, 128, 6508, 2797);
    lemma_power_mod_chain(17, 8191, 255, 2797, 256, 6594, 5477);
    lemma_power_mod_chain(17, 8191, 511, 5477, 512, 3008, 2715);
    lemma_power_mod_chain(17, 8191, 1023, 2715, 1024, 5200, 4907);
    lemma_power_mod_chain(17, 8191, 2047, 4907, 2048, 1509, 8190);
}

/// The 2730-th power of 17 is not 1 modulo 8191.
proof fn lemma_power_mod_8191_at_2730()
    ensures
        power_mod(17, 2730, 8191) == 8100,
{
    lemma_squares_mod_8191();
    lemma_power_mod_chain(17, 8191, 2, 289, 8, 6965, 6090);
    lemma_power_mod_chain(17, 8191, 10, 6090, 32, 2804, 6316);
    lemma_power_mod_chain(17, 8191, 42, 6316, 128, 6508, 2090);
    lemma_power_mod_chain(17, 8191, 170, 2090, 512, 3008, 4223);
    lemma_power_mod_chain(17, 8191, 682, 4223, 2048, 1509, 8100);
}

/// The 1638-th power of 17 is not 1 modulo 8191.
proof fn lemma_power_mod_8191_at_1638()
    ensures
        power_mod(17, 1638, 8191) == 3002,
{
    lemma_squares_mod_8191();
    lemma_power_mod_chain(17, 8191, 2, 289, 4, 1611, 6883);
    lemma_power_mod_chain(17, 8191, 6, 6883, 32, 2804, 1936);
    lemma_power_mod_chain(17, 8191, 38, 1936, 64, 7247, 7200);
    lemma_power_mod_chain(17, 8191, 102, 7200, 512, 3008, 596);
    lemma_power_mod_chain(17, 8191, 614, 596, 1024, 5200, 3002);
}

/// The 1170-th power of 17 is not 1 modulo 8191.
proof fn lemma_power_mod_8191_at_1170()
    ensures
        power_mod(17, 1170, 8191) == 3085,
{
    lemma_squares_mod_8191();
    lemma_power_mod_chain(17, 8191, 2, 289, 16, 4123, 3852);
    lemma_power_mod_chain(17, 8191, 18, 3852, 128, 6508, 4356);
    lemma_power_mod_chain(17, 8191, 146, 4356, 1024, 5200, 3085);
}

/// The 630-th power of 17 is not 1 modulo 8191.
proof fn lemma_power_mod_8191_at_630()
    ensures
        power_mod(17, 630, 8191) == 8,
{
    lemma_squares_mod_8191();
    lemma_power_mod_chain(17, 8191, 2, 289, 4, 1611, 6883);
    lemma_power_mod_chain(17, 8191, 6, 6883, 16, 4123, 4985);
    lemma_power_mod_chain(17, 8191, 22, 4985, 32, 2804, 4094);
    lemma_power_mod_chain(17, 8191, 54, 4094, 64, 7247, 1416);
    lemma_power_mod_chain(17, 8191, 118, 1416, 512, 3008, 8);
}

/// 8191 is prime: 17 has order 8190 modulo it.
pub proof fn lemma_prime_8191()
    ensures
        is_prime(8191),
{
    lemma_power_mod_8191_at_8190();
    lemma_power_mod_8191_at_4095();
    lemma_power_mod_8191_at_2730();
    lemma_power_mod_8191_at_1638();
    lemma_power_mod_8191_at_1170();
    lemma_power_mod_8191_at_630();
    lemma_prime_2();
    lemma_prime_3();
    lemma_prime_5();
    lemma_prime_7();
    lemma_prime_13();
    let f0 = Seq::<nat>::empty();
    assert(product(f0) == 1);
    let f1 = f0.push(2);
    lemma_product_push(f0, 2);
    assert(product(f1) == 2);
    let f2 = f1.push(3);
    lemma_product_push(f1, 3);
    assert(product(f2) == 6);
    let f3 = f2.push(3);
    lemma_product_push(f2, 3);
    assert(product(f3) == 18);
    let f4 = f3.push(5);
    lemma_product_push(f3, 5);
    assert(product(f4) == 90);
    let f5 = f4.push(7);
    lemma_product_push(f4, 7);
    assert(product(f5) == 630);
    let f6 = f5.push(13);
    lemma_product_push(f5, 13);
    assert(product(f6) == 8190);
    let factors = f6;
    assert forall|j: int| 0 <= j < factors.len() implies power_mod(
        17,
        8190nat / #[trigger] factors[j],
        8191,
    ) != 1 by {
        if j == 0 {
            assert(factors[0] == 2);
            assert(8190nat / 2nat == 4095);
        }
        if j == 1 {
            assert(factors[1] == 3);
            assert(8190nat / 3nat == 2730);
        }
        if j == 2 {
            assert(factors[2] == 3);
            assert(8190nat / 3nat == 2730);
        }
        if j == 3 {
            assert(factors[3] == 5);
            assert(8190nat / 5nat == 1638);
        }
        if j == 4 {
            assert(factors[4] == 7);
            assert(8190nat / 7nat == 1170);
        }
        if j == 5 {
            assert(factors[5] == 13);
            assert(8190nat / 13nat == 630);
        }
    }
    lemma_prime_by_order(8191, 17, factors);
}

/// The powers of 3 modulo 131071 whose exponents are powers of two.
proof fn lemma_squares_mod_131071()
    ensures
        power_mod(3, 1, 131071) == 3,
        power_mod(3, 2, 131071) == 9,
        power_mod(3, 4, 131071) == 81,
        power_mod(3, 8, 131071) == 6561,
        power_mod(3, 16, 131071) == 55433,
        power_mod(3, 32, 131071) == 120036,
        power_mod(3, 64, 131071) == 6266,
        power_mod(3, 128, 131071) == 72527,
        power_mod(3, 256, 131071) == 24357,
        power_mod(3, 512, 131071) == 36103,
        power_mod(3, 1024, 131071) == 56585,
        power_mod(3, 2048, 131071) == 59837,
        power_mod(3, 4096, 131071) == 62,
        power_mod(3, 8192, 131071) == 3844,
        power_mod(3, 16384, 131071) == 96384,
        power_mod(3, 32768, 131071) == 87260,
        power_mod(3, 65536, 131071) == 131068,
{
    assert(power_mod(3, 0, 131071) == 1);
    assert(power_mod(3, 1, 131071) == (power_mod(3, 0, 131071) * 3) % 131071);
    lemma_power_mod_chain(3, 131071, 1, 3, 1, 3, 9);
    lemma_power_mod_chain(3, 131071, 2, 9, 2, 9, 81);
    lemma_power_mod_chain(3, 131071, 4, 81, 4, 81, 6561);
    lemma_power_mod_chain(3, 131071, 8, 6561, 8, 6561, 55433);
    lemma_power_mod_chain(3, 131071, 16, 55433, 16, 55433, 120036);
    lemma_power_mod_chain(3, 131071, 32, 120036, 32, 120036, 6266);
    lemma_power_mod_chain(3, 131071, 64, 6266, 64, 6266, 72527);
    lemma_power_mod_chain(3, 131071, 128, 72527, 128, 72527, 24357);
    lemma_power_mod_chain(3, 131071, 256, 24357, 256, 24357, 36103);
    lemma_power_mod_chain(3, 131071, 512, 36103, 512, 36103, 56585);
    lemma_power_mod_chain(3, 131071, 1024, 56585, 1024, 56585, 59837);
    lemma_power_mod_chain(3, 131071, 2048, 59837, 2048, 59837, 62);
    lemma_power_mod_chain(3, 131071, 4096, 62, 4096, 62, 3844);
    lemma_power_mod_chain(3, 131071, 8192, 3844, 8192, 3844, 96384);
    lemma_power_mod_chain(3, 131071, 16384, 96384, 16384, 96384, 87260);
    lemma_power_mod_chain(3, 131071, 32768, 87260, 32768, 87260, 131068);
}

/// The 131070-th power of 3 is 1 modulo 131071.
proof fn lemma_power_mod_131071_at_131070()
    ensures
        power_mod(3, 131070, 131071) == 1,
{
    lemma_squares_mod_131071();
    lemma_power_mod_chain(3, 131071, 2, 9, 4, 81, 729);
    lemma_power_mod_chain(3, 131071, 6, 729, 8, 6561, 64413);
    lemma_power_mod_chain(3, 131071, 14, 64413, 16, 55433, 100718);
    lemma_power_mod_chain(3, 131071, 30, 100718, 32, 120036, 58950);
    lemma_power_mod_chain(3, 131071, 62, 58950, 64, 6266, 22622);
    lemma_power_mod_chain(3, 131071, 126, 22622, 128, 72527, 90087);
    lemma_power_mod_chain(3, 131071, 254, 90087, 256, 24357, 120519);
    lemma_power_mod_chain(3, 131071, 510, 120519, 512, 36103, 64541);
    lemma_power_mod_chain(3, 131071, 1022, 64541, 1024, 56585, 21212);
    lemma_power_mod_chain(3, 131071, 2046, 21212, 2048, 59837, 101951);
    lemma_power_mod_chain(3, 131071, 4094, 101951, 4096, 62, 29554);
    lemma_power_mod_chain(3, 131071, 8190, 29554, 8192, 3844, 98090);
    lemma_power_mod_chain(3, 131071, 16382, 98090, 16384, 96384, 24259);
    lemma_power_mod_chain(3, 131071, 32766, 24259, 32768, 87260, 43690);
    lemma_power_mod_chain(3, 131071, 65534, 43690, 65536, 131068, 1);
}

/// The 65535-th power of 3 is not 1 modulo 131071.
proof fn lemma_power_mod_131071_at_65535()
    ensures
        power_mod(3, 65535, 131071) == 131070,
{
    lemma_squares_mod_131071();
    lemma_power_mod_chain(3, 131071, 1, 3, 2, 9, 27);
    lemma_power_mod_chain(3, 131071, 3, 27, 4, 81, 2187);
    lemma_power_mod_chain(3, 131071, 7, 2187, 8, 6561, 62168);
    lemma_power_mod_chain(3, 131071, 15, 62168, 16, 55433, 40012);
    lemma_power_mod_chain(3, 131071, 31, 40012, 32, 120036, 45779);
    lemma_power_mod_chain(3, 131071, 63, 45779, 64, 6266, 67866);
    lemma_power_mod_chain(3, 131071, 127, 67866, 128, 72527, 8119);
    lemma_power_mod_chain(3, 131071, 255, 8119, 256, 24357, 99415);
    lemma_power_mod_chain(3, 131071, 511, 99415, 512, 36103, 62552);
    lemma_power_mod_chain(3, 131071, 1023, 62552, 1024, 56585, 63636);
    lemma_power_mod_chain(3, 131071, 2047, 63636, 2048, 59837, 43711);
    lemma_power_mod_chain(3, 131071, 4095, 43711, 4096, 62, 88662);
    lemma_power_mod_chain(3, 131071, 8191, 88662, 8192, 3844, 32128);
    lemma_power_mod_chain(3, 131071, 16383, 32128, 16384, 96384, 72777);
    lemma_power_mod_chain(3, 131071, 32767, 72777, 32768, 87260, 131070);
}

/// The 43690-th power of 3 is not 1 modulo 131071.
proof fn lemma_power_mod_131071_at_43690()
    ensures
        power_mod(3, 43690, 131071) == 109165,
{
    lemma_squares_mod_131071();
    lemma_power_mod_chain(3, 131071, 2, 9, 8, 6561, 59049);
    lemma_power_mod_chain(3, 131071, 10, 59049, 32, 120036, 79297);
    lemma_power_mod_chain(3, 131071, 42, 79297, 128, 72527, 40181);
    lemma_power_mod_chain(3, 131071, 170, 40181, 512, 36103, 91886);
    lemma_power_mod_chain(3, 131071, 682, 91886, 2048, 59837, 16274);
    lemma_power_mod_chain(3, 131071, 2730, 16274, 8192, 3844, 36389);
    lemma_power_mod_chain(3, 131071, 10922, 36389, 32768, 87260, 109165);
}

/// The 26214-th power of 3 is not 1 modulo 131071.
proof fn lemma_power_mod_131071_at_26214()
    ensures
        power_mod(3, 26214, 131071) == 119782,
{
    lemma_squares_mod_131071();
    lemma_power_mod_chain(3, 131071, 2, 9, 4, 81, 729);
    lemma_power_mod_chain(3, 131071, 6, 729, 32, 120036, 81887);
    lemma_power_mod_chain(3, 131071, 38, 81887, 64, 6266, 92048);
    lemma_power_mod_chain(3, 131071, 102, 92048, 512, 36103, 34810);
    lemma_power_mod_chain(3, 131071, 614, 34810, 1024, 56585, 119933);
    lemma_power_mod_chain(3, 131071, 1638, 119933, 8192, 3844, 45745);
    lemma_power_mod_chain(3, 131071, 9830, 45745, 16384, 96384, 119782);
}

/// The 7710-th power of 3 is not 1 modulo 131071.
proof fn lemma_power_mod_131071_at_7710()
    ensures
        power_mod(3, 7710, 131071) == 32768,
{
    lemma_squares_mod_131071();
    lemma_power_mod_chain(3, 131071, 2, 9, 4, 81, 729);
    lemma_power_mod_chain(3, 131071, 6, 729, 8, 6561, 64413);
    lemma_power_mod_chain(3, 131071, 14, 64413, 16, 55433, 100718);
    lemma_power_mod_chain(3, 131071, 30, 100718, 512, 36103, 50272);
    lemma_power_mod_chain(3, 131071, 542, 50272, 1024, 56585, 7207);
    lemma_power_mod_chain(3, 131071, 1566, 7207, 2048, 59837, 21669);
    lemma_power_mod_chain(3, 131071, 3614, 21669, 4096, 62, 32768);
}

/// The 510-th power of 3 is not 1 modulo 131071.
proof fn lemma_power_mod_131071_at_510()
    ensures
        power_mod(3, 510, 131071) == 120519,
{
    lemma_squares_mod_131071();
    lemma_power_mod_chain(3, 131071, 2, 9, 4, 81, 729);
    lemma_power_mod_chain(3, 131071, 6, 729, 8, 6561, 64413);
    lemma_power_mod_chain(3, 131071, 14, 64413, 16, 55433, 100718);
    lemma_power_mod_chain(3, 131071, 30, 100718, 32, 120036, 58950);
    lemma_power_mod_chain(3, 131071, 62, 58950, 64, 6266, 22622);
    lemma_power_mod_chain(3, 131071, 126, 22622, 128, 72527, 90087);
    lemma_power_mod_chain(3, 131071, 254, 90087, 256, 24357, 120519);
}

/// 131071 is prime: 3 has order 131070 modulo it.
pub proof fn lemma_prime_131071()
    ensures
        is_prime(131071),
{
    lemma_power_mod_131071_at_131070();
    lemma_power_mod_131071_at_65535();
    lemma_power_mod_131071_at_43690();
    lemma_power_mod_131071_at_26214();
    lemma_power_mod_131071_at_7710();
    lemma_power_mod_131071_at_510();
    lemma_prime_2();
    lemma_prime_3();
    lemma_prime_5();
    lemma_prime_17();
    lemma_prime_257();
    let f0 = Seq::<nat>::empty();
    assert(product(f0) == 1);
    let f1 = f0.push(2);
    lemma_product_push(f0, 2);
    assert(product(f1) == 2);
    let f2 = f1.push(3);
    lemma_product_push(f1, 3);
    assert(product(f2) == 6);
    let f3 = f2.push(5);
    lemma_product_push(f2, 5);
    assert(product(f3) == 30);
    let f4 = f3.push(17);
    lemma_product_push(f3, 17);
    assert(product(f4) == 510);
    let f5 = f4.push(257);
    lemma_product_push(f4, 257);
    assert(product(f5) == 131070);
    let factors = f5;
    assert forall|j: int| 0 <= j < factors.len() implies power_mod(
        3,
        131070nat / #[trigger] factors[j],
        131071,
    ) != 1 by {
        if j == 0 {
            assert(factors[0] == 2);
            assert(131070nat / 2nat == 65535);
        }
        if j == 1 {
            assert(factors[1] == 3);
            assert(131070nat / 3nat == 43690);
        }
        if j == 2 {
            assert(factors[2] == 5);
            assert(131070nat / 5nat == 26214);
        }
        if j == 3 {
            assert(factors[3] == 17);
            assert(131070nat / 17nat == 7710);
        }
        if j == 4 {
            assert(factors[4] == 257);
            assert(131070nat / 257nat == 510);
        }
    }
    lemma_prime_by_order(131071, 3, factors);
}

/// The powers of 3 modulo 178481 whose exponents are powers of two.
proof fn lemma_squares_mod_178481()
    ensures
        power_mod(3, 1, 178481) == 3,
        power_mod(3, 2, 178481) == 9,
        power_mod(3, 4, 178481) == 81,
        power_mod(3, 8, 178481) == 6561,
        power_mod(3, 16, 178481) == 32800,
        power_mod(3, 32, 178481) == 135013,
        power_mod(3, 64, 178481) == 67158,
        power_mod(3, 128, 178481) == 160575,
        power_mod(3, 256, 178481) == 72960,
        power_mod(3, 512, 178481) == 144256,
        power_mod(3, 1024, 178481) == 158303,
        power_mod(3, 2048, 178481) == 36523,
        power_mod(3, 4096, 178481) == 141016,
        power_mod(3, 8192, 178481) == 51641,
        power_mod(3, 16384, 178481) == 108260,
        power_mod(3, 32768, 178481) == 94254,
        power_mod(3, 65536, 178481) == 103222,
        power_mod(3, 131072, 178481) == 1027,
{
    assert(power_mod(3, 0, 178481) == 1);
    assert(power_mod(3, 1, 178481) == (power_mod(3, 0, 178481) * 3) % 178481);
    lemma_power_mod_chain(3, 178481, 1, 3, 1, 3, 9);
    lemma_power_mod_chain(3, 178481, 2, 9, 2, 9, 81);
    lemma_power_mod_chain(3, 178481, 4, 81, 4, 81, 6561);
    lemma_power_mod_chain(3, 178481, 8, 6561, 8, 6561, 32800);
    lemma_power_mod_chain(3, 178481, 16, 32800, 16, 32800, 135013);
    lemma_power_mod_chain(3, 178481, 32, 135013, 32, 135013, 67158);
    lemma_power_mod_chain(3, 178481, 64, 67158, 64, 67158, 160575);
    lemma_power_mod_chain(3, 178481, 128, 160575, 128, 160575, 72960);
    lemma_power_mod_chain(3, 178481, 256, 72960, 256, 72960, 144256);
    lemma_power_mod_chain(3, 178481, 512, 144256, 512, 144256, 158303);
    lemma_power_mod_chain(3, 178481, 1024, 158303, 1024, 158303, 36523);
    lemma_power_mod_chain(3, 178481, 2048, 36523, 2048, 36523, 141016);
    lemma_power_mod_chain(3, 178481, 4096, 141016, 4096, 141016, 51641);
    lemma_power_mod_chain(3, 178481, 8192, 51641, 8192, 51641, 108260);
    lemma_power_mod_chain(3, 178481, 16384, 108260, 16384, 108260, 94254);
    lemma_power_mod_chain(3, 178481, 32768, 94254, 32768, 94254, 103222);
    lemma_power_mod_chain(3, 178481, 65536, 103222, 65536, 103222, 1027);
}

/// The 178480-th power of 3 is 1 modulo 178481.
proof fn lemma_power_mod_178481_at_178480()
    ensures
        power_mod(3, 178480, 178481) == 1,
{
    lemma_squares_mod_178481();
    lemma_power_mod_chain(3, 178481, 16, 32800, 32, 135013, 134309);
    lemma_power_mod_chain(3, 178481, 48, 134309, 256, 72960, 42297);
    lemma_power_mod_chain(3, 178481, 304, 42297, 2048, 36523, 60276);
    lemma_power_mod_chain(3, 178481, 2352, 60276, 4096, 141016, 79753);
    lemma_power_mod_chain(3, 178481, 6448, 79753, 8192, 51641, 75598);
    lemma_power_mod_chain(3, 178481, 14640, 75598, 32768, 94254, 95410);
    lemma_power_mod_chain(3, 178481, 47408, 95410, 131072, 1027, 1);
}

/// The 89240-th power of 3 is not 1 modulo 178481.
proof fn lemma_power_mod_178481_at_89240()
    ensures
        power_mod(3, 89240, 178481) == 178480,
{
    lemma_squares_mod_178481();
    lemma_power_mod_chain(3, 178481, 8, 6561, 16, 32800, 131195);
    lemma_power_mod_chain(3, 178481, 24, 131195, 128, 160575, 167733);
    lemma_power_mod_chain(3, 178481, 152, 167733, 1024, 158303, 18729);
    lemma_power_mod_chain(3, 178481, 1176, 18729, 2048, 36523, 100075);
    lemma_power_mod_chain(3, 178481, 3224, 100075, 4096, 141016, 40492);
    lemma_power_mod_chain(3, 178481, 7320, 40492, 16384, 108260, 170560);
    lemma_power_mod_chain(3, 178481, 23704, 170560, 65536, 103222, 178480);
}

/// The 35696-th power of 3 is not 1 modulo 178481.
proof fn lemma_power_mod_178481_at_35696()
    ensures
        power_mod(3, 35696, 178481) == 160867,
{
    lemma_squares_mod_178481();
    lemma_power_mod_chain(3, 178481, 16, 32800, 32, 135013, 134309);
    lemma_power_mod_chain(3, 178481, 48, 134309, 64, 67158, 29525);
    lemma_power_mod_chain(3, 178481, 112, 29525, 256, 72960, 56811);
    lemma_power_mod_chain(3, 178481, 368, 56811, 512, 144256, 15539);
    lemma_power_mod_chain(3, 178481, 880, 15539, 2048, 36523, 139798);
    lemma_power_mod_chain(3, 178481, 2928, 139798, 32768, 94254, 160867);
}

/// The 7760-th power of 3 is not 1 modulo 178481.
proof fn lemma_power_mod_178481_at_7760()
    ensures
        power_mod(3, 7760, 178481) == 89241,
{
    lemma_squares_mod_178481();
    lemma_power_mod_chain(3, 178481, 16, 32800, 64, 67158, 148379);
    lemma_power_mod_chain(3, 178481, 80, 148379, 512, 144256, 48618);
    lemma_power_mod_chain(3, 178481, 592, 48618, 1024, 158303, 96053);
    lemma_power_mod_chain(3, 178481, 1616, 96053, 2048, 36523, 99664);
    lemma_power_mod_chain(3, 178481, 3664, 99664, 4096, 141016, 89241);
}

/// The 1840-th power of 3 is not 1 modulo 178481.
proof fn lemma_power_mod_178481_at_1840()
    ensures
        power_mod(3, 1840, 178481) == 113011,
{
    lemma_squares_mod_178481();
    lemma_power_mod_chain(3, 178481, 16, 32800, 32, 135013, 134309);
    lemma_power_mod_chain(3, 178481, 48, 134309, 256, 72960, 42297);
    lemma_power_mod_chain(3, 178481, 304, 42297, 512, 144256, 44566);
    lemma_power_mod_chain(3, 178481, 816, 44566, 1024, 158303, 113011);
}

/// 178481 is prime: 3 has order 178480 modulo it.
pub proof fn lemma_prime_178481()
    ensures
        is_prime(178481),
{
    lemma_power_mod_178481_at_178480();
    lemma_power_mod_178481_at_89240();
    lemma_power_mod_178481_at_35696();
    lemma_power_mod_178481_at_7760();
    lemma_power_mod_178481_at_1840();
    lemma_prime_2();
    lemma_prime_5();
    lemma_prime_23();
    lemma_prime_97();
    let f0 = Seq::<nat>::empty();
    assert(product(f0) == 1);
    let f1 = f0.push(2);
    lemma_product_push(f0, 2);
    assert(product(f1) == 2);
    let f2 = f1.push(2);
    lemma_product_push(f1, 2);
    assert(product(f2) == 4);
    let f3 = f2.push(2);
    lemma_product_push(f2, 2);
    assert(product(f3) == 8);
    let f4 = f3.push(2);
    lemma_product_push(f3, 2);
    assert(product(f4) == 16);
    let f5 = f4.push(5);
    lemma_product_push(f4, 5);
    assert(product(f5) == 80);
    let f6 = f5.push(23);
    lemma_product_push(f5, 23);
    assert(product(f6) == 1840);
    let f7 = f6.push(97);
    lemma_product_push(f6, 97);
    assert(product(f7) == 178480);
    let factors = f7;
    assert forall|j: int| 0 <= j < factors.len() implies power_mod(
        3,
        178480nat / #[trigger] factors[j],
        178481,
    ) != 1 by {
        if j == 0 {
            assert(factors[0] == 2);
            assert(178480nat / 2nat == 89240);
        }
        if j == 1 {
            assert(factors[1] == 2);
            assert(178480nat / 2nat == 89240);
        }
        if j == 2 {
            assert(factors[2] == 2);
            assert(178480nat / 2nat == 89240);
        }
        if j == 3 {
            assert(factors[3] == 2);
            assert(178480nat / 2nat == 89240);
        }
        if j == 4 {
            assert(factors[4] == 5);
            assert(178480nat / 5nat == 35696);
        }
        if j == 5 {
            assert(factors[5] == 23);
            assert(178480nat / 23nat == 7760);
        }
        if j == 6 {
            assert(factors[6] == 97);
            assert(178480nat / 97nat == 1840);
        }
    }
    lemma_prime_by_order(178481, 3, factors);
}

/// The powers of 5 modulo 262657 whose exponents are powers of two.
proof fn lemma_squares_mod_262657()
    ensures
        power_mod(5, 1, 262657) == 5,
        power_mod(5, 2, 262657) == 25,
        power_mod(5, 4, 262657) == 625,
        power_mod(5, 8, 262657) == 127968,
        power_mod(5, 16, 262657) == 195702,
        power_mod(5, 32, 262657) == 205006,
        power_mod(5, 64, 262657) == 238780,
        power_mod(5, 128, 262657) == 145439,
        power_mod(5, 256, 262657) == 209197,
        power_mod(5, 512, 262657) == 783,
        power_mod(5, 1024, 262657) == 87775,
        power_mod(5, 2048, 262657) == 195501,
        power_mod(5, 4096, 262657) == 107646,
        power_mod(5, 8192, 262657) == 22447,
        power_mod(5, 16384, 262657) == 91683,
        power_mod(5, 32768, 262657) == 223175,
        power_mod(5, 65536, 262657) == 221686,
        power_mod(5, 131072, 262657) == 244611,
        power_mod(5, 262144, 262657) == 226093,
{
    assert(power_mod(5, 0, 262657) == 1);
    assert(power_mod(5, 1, 262657) == (power_mod(5, 0, 262657) * 5) % 262657);
    lemma_power_mod_chain(5, 262657, 1, 5, 1, 5, 25);
    lemma_power_mod_chain(5, 262657, 2, 25, 2, 25, 625);
    lemma_power_mod_chain(5, 262657, 4, 625, 4, 625, 127968);
    lemma_power_mod_chain(5, 262657, 8, 127968, 8, 127968, 195702);
    lemma_power_mod_chain(5, 262657, 16, 195702, 16, 195702, 205006);
    lemma_power_mod_chain(5, 262657, 32, 205006, 32, 205006, 238780);
    lemma_power_mod_chain(5, 262657, 64, 238780, 64, 238780, 145439);
    lemma_power_mod_chain(5, 262657, 128, 145439, 128, 145439, 209197);
    lemma_power_mod_chain(5, 262657, 256, 209197, 256, 209197, 783);
    lemma_power_mod_chain(5, 262657, 512, 783, 512, 783, 87775);
    lemma_power_mod_chain(5, 262657, 1024, 87775, 1024, 87775, 195501);
    lemma_power_mod_chain(5, 262657, 2048, 195501, 2048, 195501, 107646);
    lemma_power_mod_chain(5, 262657, 4096, 107646, 4096, 107646, 22447);
    lemma_power_mod_chain(5, 262657, 8192, 22447, 8192, 22447, 91683);
    lemma_power_mod_chain(5, 262657, 16384, 91683, 16384, 91683, 223175);
    lemma_power_mod_chain(5, 262657, 32768, 223175, 32768, 223175, 221686);
    lemma_power_mod_chain(5, 262657, 65536, 221686, 65536, 221686, 244611);
    lemma_power_mod_chain(5, 262657, 131072, 244611, 131072, 244611, 226093);
}

/// The 262656-th power of 5 is 1 modulo 262657.
proof fn lemma_power_mod_262657_at_262656()
    ensures
        power_mod(5, 262656, 262657) == 1,
{
    lemma_squares_mod_262657();
    lemma_power_mod_chain(5, 262657, 512, 783, 262144, 226093, 1);
}

/// The 131328-th power of 5 is not 1 modulo 262657.
proof fn lemma_power_mod_262657_at_131328()
    ensures
        power_mod(5, 131328, 262657) == 262656,
{
    lemma_squares_mod_262657();
    lemma_power_mod_chain(5, 262657, 256, 209197, 131072, 244611, 262656);
}

/// The 87552-th power of 5 is not 1 modulo 262657.
proof fn lemma_power_mod_262657_at_87552()
    ensures
        power_mod(5, 87552, 262657) == 262144,
{
    lemma_squares_mod_262657();
    lemma_power_mod_chain(5, 262657, 512, 783, 1024, 87775, 174348);
    lemma_power_mod_chain(5, 262657, 1536, 174348, 4096, 107646, 234187);
    lemma_power_mod_chain(5, 262657, 5632, 234187, 16384, 91683, 70256);
    lemma_power_mod_chain(5, 262657, 22016, 70256, 65536, 221686, 262144);
}

/// The 13824-th power of 5 is not 1 modulo 262657.
proof fn lemma_power_mod_262657_at_13824()
    ensures
        power_mod(5, 13824, 262657) == 241048,
{
    lemma_squares_mod_262657();
    lemma_power_mod_chain(5, 262657, 512, 783, 1024, 87775, 174348);
    lemma_power_mod_chain(5, 262657, 1536, 174348, 4096, 107646, 234187);
    lemma_power_mod_chain(5, 262657, 5632, 234187, 8192, 22447, 241048);
}

/// 262657 is prime: 5 has order 262656 modulo it.
pub proof fn lemma_prime_262657()
    ensures
        is_prime(262657),
{
    lemma_power_mod_262657_at_262656();
    lemma_power_mod_262657_at_131328();
    lemma_power_mod_262657_at_87552();
    lemma_power_mod_262657_at_13824();
    lemma_prime_2();
    lemma_prime_3();
    lemma_prime_19();
    let f0 = Seq::<nat>::empty();
    assert(product(f0) == 1);
    let f1 = f0.push(2);
    lemma_product_push(f0, 2);
    assert(product(f1) == 2);
    let f2 = f1.push(2);
    lemma_product_push(f1, 2);
    assert(product(f2) == 4);
    let f3 = f2.push(2);
    lemma_product_push(f2, 2);
    assert(product(f3) == 8);
    let f4 = f3.push(2);
    lemma_product_push(f3, 2);
    assert(product(f4) == 16);
    let f5 = f4.push(2);
    lemma_product_push(f4, 2);
    assert(product(f5) == 32);
    let f6 = f5.push(2);
    lemma_product_push(f5, 2);
    assert(product(f6) == 64);
    let f7 = f6.push(2);
    lemma_product_push(f6, 2);
    assert(product(f7) == 128);
    let f8 = f7.push(2);
    lemma_product_push(f7, 2);
    assert(product(f8) == 256);
    let f9 = f8.push(2);
    lemma_product_push(f8, 2);
    assert(product(f9) == 512);
    let f10 = f9.push(3);
    lemma_product_push(f9, 3);
    assert(product(f10) == 1536);
    let f11 = f10.push(3);
    lemma_product_push(f10, 3);
    assert(product(f11) == 4608);
    let f12 = f11.push(3);
    lemma_product_push(f11, 3);
    assert(product(f12) == 13824);
    let f13 = f12.push(19);
    lemma_product_push(f12, 19);
    assert(product(f13) == 262656);
    let factors = f13;
    assert forall|j: int| 0 <= j < factors.len() implies power_mod(
        5,
        262656nat / #[trigger] factors[j],
        262657,
    ) != 1 by {
        if j == 0 {
            assert(factors[0] == 2);
            assert(262656nat / 2nat == 131328);
        }
        if j == 1 {
            assert(factors[1] == 2);
            assert(262656nat / 2nat == 131328);
        }
        if j == 2 {
            assert(factors[2] == 2);
            assert(262656nat / 2nat == 131328);
        }
        if j == 3 {
            assert(factors[3] == 2);
            assert(262656nat / 2nat == 131328);
        }
        if j == 4 {
            assert(factors[4] == 2);
            assert(262656nat / 2nat == 131328);
        }
        if j == 5 {
            assert(factors[5] == 2);
            assert(262656nat / 2nat == 131328);
        }
        if j == 6 {
            assert(factors[6] == 2);
            assert(262656nat / 2nat == 131328);
        }
        if j == 7 {
            assert(factors[7] == 2);
            assert(262656nat / 2nat == 131328);
        }
        if j == 8 {
            assert(factors[8] == 2);
            assert(262656nat / 2nat == 131328);
        }
        if j == 9 {
            assert(factors[9] == 3);
            assert(262656nat / 3nat == 87552);
        }
        if j == 10 {
            assert(factors[10] == 3);
            assert(262656nat / 3nat == 87552);
        }
        if j == 11 {
            assert(factors[11] == 3);
            assert(262656nat / 3nat == 87552);
        }
        if j == 12 {
            assert(factors[12] == 19);
            assert(262656nat / 19nat == 13824);
        }
    }
    lemma_prime_by_order(262657, 5, factors);
}

/// The powers of 3 modulo 524287 whose exponents are powers of two.
proof fn lemma_squares_mod_524287()
    ensures
        power_mod(3, 1, 524287) == 3,
        power_mod(3, 2, 524287) == 9,
        power_mod(3, 4, 524287) == 81,
        power_mod(3, 8, 524287) == 6561,
        power_mod(3, 16, 524287) == 55187,
        power_mod(3, 32, 524287) == 21786,
        power_mod(3, 64, 524287) == 150061,
        power_mod(3, 128, 524287) == 177071,
        power_mod(3, 256, 524287) == 203580,
        power_mod(3, 512, 524287) == 453337,
        power_mod(3, 1024, 524287) == 223013,
        power_mod(3, 2048, 524287) == 409062,
        power_mod(3, 4096, 524287) == 280924,
        power_mod(3, 8192, 524287) == 517388,
        power_mod(3, 16384, 524287) == 410371,
        power_mod(3, 32768, 524287) == 227519,
        power_mod(3, 65536, 524287) == 466990,
        power_mod(3, 131072, 524287) == 385302,
        power_mod(3, 262144, 524287) == 524284,
{
    assert(power_mod(3, 0, 524287) == 1);
    assert(power_mod(3, 1, 524287) == (power_mod(3, 0, 524287) * 3) % 524287);
    lemma_power_mod_chain(3, 524287, 1, 3, 1, 3, 9);
    lemma_power_mod_chain(3, 524287, 2, 9, 2, 9, 81);
    lemma_power_mod_chain(3, 524287, 4, 81, 4, 81, 6561);
    lemma_power_mod_chain(3, 524287, 8, 6561, 8, 6561, 55187);
    lemma_power_mod_chain(3, 524287, 16, 55187, 16, 55187, 21786);
    lemma_power_mod_chain(3, 524287, 32, 21786, 32, 21786, 150061);
    lemma_power_mod_chain(3, 524287, 64, 150061, 64, 150061, 177071);
    lemma_power_mod_chain(3, 524287, 128, 177071, 128, 177071, 203580);
    lemma_power_mod_chain(3, 524287, 256, 203580, 256, 203580, 453337);
    lemma_power_mod_chain(3, 524287, 512, 453337, 512, 453337, 223013);
    lemma_power_mod_chain(3, 524287, 1024, 223013, 1024, 223013, 409062);
    lemma_power_mod_chain(3, 524287, 2048, 409062, 2048, 409062, 280924);
    lemma_power_mod_chain(3, 524287, 4096, 280924, 4096, 280924, 517388);
    lemma_power_mod_chain(3, 524287, 8192, 517388, 8192, 517388, 410371);
    lemma_power_mod_chain(3, 524287, 16384, 410371, 16384, 410371, 227519);
    lemma_power_mod_chain(3, 524287, 32768, 227519, 32768, 227519, 466990);
    lemma_power_mod_chain(3, 524287, 65536, 466990, 65536, 466990, 385302);
    lemma_power_mod_chain(3, 524287, 131072, 385302, 131072, 385302, 524284);
}

/// The 524286-th power of 3 is 1 modulo 524287.
proof fn lemma_power_mod_524287_at_524286()
    ensures
        power_mod(3, 524286, 524287) == 1,
{
    lemma_squares_mod_524287();
    lemma_power_mod_chain(3, 524287, 2, 9, 4, 81, 729);
    lemma_power_mod_chain(3, 524287, 6, 729, 8, 6561, 64386);
    lemma_power_mod_chain(3, 524287, 14, 64386, 16, 55187, 177183);
    lemma_power_mod_chain(3, 524287, 30, 177183, 32, 21786, 307944);
    lemma_power_mod_chain(3, 524287, 62, 307944, 64, 150061, 252691);
    lemma_power_mod_chain(3, 524287, 126, 252691, 128, 177071, 22620);
    lemma_power_mod_chain(3, 524287, 254, 22620, 256, 203580, 166879);
    lemma_power_mod_chain(3, 524287, 510, 166879, 512, 453337, 432558);
    lemma_power_mod_chain(3, 524287, 1022, 432558, 1024, 223013, 394976);
    lemma_power_mod_chain(3, 524287, 2046, 394976, 2048, 409062, 147722);
    lemma_power_mod_chain(3, 524287, 4094, 147722, 4096, 280924, 290504);
    lemma_power_mod_chain(3, 524287, 8190, 290504, 8192, 517388, 162105);
    lemma_power_mod_chain(3, 524287, 16382, 162105, 16384, 410371, 83534);
    lemma_power_mod_chain(3, 524287, 32766, 83534, 32768, 227519, 168396);
    lemma_power_mod_chain(3, 524287, 65534, 168396, 65536, 466990, 392336);
    lemma_power_mod_chain(3, 524287, 131070, 392336, 131072, 385302, 174762);
    lemma_power_mod_chain(3, 524287, 262142, 174762, 262144, 524284, 1);
}

/// The 262143-th power of 3 is not 1 modulo 524287.
proof fn lemma_power_mod_524287_at_262143()
    ensures
        power_mod(3, 262143, 524287) == 524286,
{
    lemma_squares_mod_524287();
    lemma_power_mod_chain(3, 524287, 1, 3, 2, 9, 27);
    lemma_power_mod_chain(3, 524287, 3, 27, 4, 81, 2187);
    lemma_power_mod_chain(3, 524287, 7, 2187, 8, 6561, 193158);
    lemma_power_mod_chain(3, 524287, 15, 193158, 16, 55187, 7262);
    lemma_power_mod_chain(3, 524287, 31, 7262, 32, 21786, 399545);
    lemma_power_mod_chain(3, 524287, 63, 399545, 64, 150061, 233786);
    lemma_power_mod_chain(3, 524287, 127, 233786, 128, 177071, 67860);
    lemma_power_mod_chain(3, 524287, 255, 67860, 256, 203580, 500637);
    lemma_power_mod_chain(3, 524287, 511, 500637, 512, 453337, 249100);
    lemma_power_mod_chain(3, 524287, 1023, 249100, 1024, 223013, 136354);
    lemma_power_mod_chain(3, 524287, 2047, 136354, 2048, 409062, 443166);
    lemma_power_mod_chain(3, 524287, 4095, 443166, 4096, 280924, 347225);
    lemma_power_mod_chain(3, 524287, 8191, 347225, 8192, 517388, 486315);
    lemma_power_mod_chain(3, 524287, 16383, 486315, 16384, 410371, 250602);
    lemma_power_mod_chain(3, 524287, 32767, 250602, 32768, 227519, 505188);
    lemma_power_mod_chain(3, 524287, 65535, 505188, 65536, 466990, 128434);
    lemma_power_mod_chain(3, 524287, 131071, 128434, 131072, 385302, 524286);
}

/// The 174762-th power of 3 is not 1 modulo 524287.
proof fn lemma_power_mod_524287_at_174762()
    ensures
        power_mod(3, 174762, 524287) == 69492,
{
    lemma_squares_mod_524287();
    lemma_power_mod_chain(3, 524287, 2, 9, 8, 6561, 59049);
    lemma_power_mod_chain(3, 524287, 10, 59049, 32, 21786, 365503);
    lemma_power_mod_chain(3, 524287, 42, 365503, 128, 177071, 421572);
    lemma_power_mod_chain(3, 524287, 170, 421572, 512, 453337, 39950);
    lemma_power_mod_chain(3, 524287, 682, 39950, 2048, 409062, 1110);
    lemma_power_mod_chain(3, 524287, 2730, 1110, 8192, 517388, 206415);
    lemma_power_mod_chain(3, 524287, 10922, 206415, 32768, 227519, 326360);
    lemma_power_mod_chain(3, 524287, 43690, 326360, 131072, 385302, 69492);
}

/// The 74898-th power of 3 is not 1 modulo 524287.
proof fn lemma_power_mod_524287_at_74898()
    ensures
        power_mod(3, 74898, 524287) == 255704,
{
    lemma_squares_mod_524287();
    lemma_power_mod_chain(3, 524287, 2, 9, 16, 55187, 496683);
    lemma_power_mod_chain(3, 524287, 18, 496683, 128, 177071, 59817);
    lemma_power_mod_chain(3, 524287, 146, 59817, 1024, 223013, 10193);
    lemma_power_mod_chain(3, 524287, 1170, 10193, 8192, 517388, 457238);
    lemma_power_mod_chain(3, 524287, 9362, 457238, 65536, 466990, 255704);
}

/// The 27594-th power of 3 is not 1 modulo 524287.
proof fn lemma_power_mod_524287_at_27594()
    ensures
        power_mod(3, 27594, 524287) == 256,
{
    lemma_squares_mod_524287();
    lemma_power_mod_chain(3, 524287, 2, 9, 8, 6561, 59049);
    lemma_power_mod_chain(3, 524287, 10, 59049, 64, 150061, 501689);
    lemma_power_mod_chain(3, 524287, 74, 501689, 128, 177071, 432213);
    lemma_power_mod_chain(3, 524287, 202, 432213, 256, 203580, 408191);
    lemma_power_mod_chain(3, 524287, 458, 408191, 512, 453337, 462430);
    lemma_power_mod_chain(3, 524287, 970, 462430, 2048, 409062, 315347);
    lemma_power_mod_chain(3, 524287, 3018, 315347, 8192, 517388, 212097);
    lemma_power_mod_chain(3, 524287, 11210, 212097, 16384, 410371, 256);
}

/// The 7182-th power of 3 is not 1 modulo 524287.
proof fn lemma_power_mod_524287_at_7182()
    ensures
        power_mod(3, 7182, 524287) == 117005,
{
    lemma_squares_mod_524287();
    lemma_power_mod_chain(3, 524287, 2, 9, 4, 81, 729);
    lemma_power_mod_chain(3, 524287, 6, 729, 8, 6561, 64386);
    lemma_power_mod_chain(3, 524287, 14, 64386, 1024, 223013, 266949);
    lemma_power_mod_chain(3, 524287, 1038, 266949, 2048, 409062, 195478);
    lemma_power_mod_chain(3, 524287, 3086, 195478, 4096, 280924, 117005);
}

/// 524287 is prime: 3 has order 524286 modulo it.
pub proof fn lemma_prime_524287()
    ensures
        is_prime(524287),
{
    lemma_power_mod_524287_at_524286();
    lemma_power_mod_524287_at_262143();
    lemma_power_mod_524287_at_174762();
    lemma_power_mod_524287_at_74898();
    lemma_power_mod_524287_at_27594();
    lemma_power_mod_524287_at_7182();
    lemma_prime_2();
    lemma_prime_3();
    lemma_prime_7();
    lemma_prime_19();
    lemma_prime_73();
    let f0 = Seq::<nat>::empty();
    assert(product(f0) == 1);
    let f1 = f0.push(2);
    lemma_product_push(f0, 2);
    assert(product(f1) == 2);
    let f2 = f1.push(3);
    lemma_product_push(f1, 3);
    assert(product(f2) == 6);
    let f3 = f2.push(3);
    lemma_product_push(f2, 3);
    assert(product(f3) == 18);
    let f4 = f3.push(3);
    lemma_product_push(f3, 3);
    assert(product(f4) == 54);
    let f5 = f4.push(7);
    lemma_product_push(f4, 7);
    assert(product(f5) == 378);
    let f6 = f5.push(19);
    lemma_product_push(f5, 19);
    assert(product(f6) == 7182);
    let f7 = f6.push(73);
    lemma_product_push(f6, 73);
    assert(product(f7) == 524286);
    let factors = f7;
    assert forall|j: int| 0 <= j < factors.len() implies power_mod(
        3,
        524286nat / #[trigger] factors[j],
        524287,
    ) != 1 by {
        if j == 0 {
            assert(factors[0] == 2);
            assert(524286nat / 2nat == 262143);
        }
        if j == 1 {
            assert(factors[1] == 3);
            assert(524286nat / 3nat == 174762);
        }
        if j == 2 {
            assert(factors[2] == 3);
            assert(524286nat / 3nat == 174762);
        }
        if j == 3 {
            assert(factors[3] == 3);
            assert(524286nat / 3nat == 174762);
        }
        if j == 4 {
            assert(factors[4] == 7);
            assert(524286nat / 7nat == 74898);
        }
        if j == 5 {
            assert(factors[5] == 19);
            assert(524286nat / 19nat == 27594);
        }
        if j == 6 {
            assert(factors[6] == 73);
            assert(524286nat / 73nat == 7182);
        }
    }
    lemma_prime_by_order(524287, 3, factors);
}

/// The powers of 7 modulo 2147483647 whose exponents are powers of two.
proof fn lemma_squares_mod_2147483647()
    ensures
        power_mod(7, 1, 2147483647) == 7,
        power_mod(7, 2, 2147483647) == 49,
        power_mod(7, 4, 2147483647) == 2401,
        power_mod(7, 8, 2147483647) == 5764801,
        power_mod(7, 16, 2147483647) == 621132276,
        power_mod(7, 32, 2147483647) == 1565515858,
        power_mod(7, 64, 2147483647) == 254926356,
        power_mod(7, 128, 2147483647) == 505181450,
        power_mod(7, 256, 2147483647) == 784826772,
        power_mod(7, 512, 2147483647) == 1992759719,
        power_mod(7, 1024, 2147483647) == 1181505519,
        power_mod(7, 2048, 2147483647) == 714812675,
        power_mod(7, 4096, 2147483647) == 330997682,
        power_mod(7, 8192, 2147483647) == 1632702277,
        power_mod(7, 16384, 2147483647) == 1049638675,
        power_mod(7, 32768, 2147483647) == 1405977407,
        power_mod(7, 65536, 2147483647) == 118315438,
        power_mod(7, 131072, 2147483647) == 1064954231,
        power_mod(7, 262144, 2147483647) == 954354495,
        power_mod(7, 524288, 2147483647) == 446794602,
        power_mod(7, 1048576, 2147483647) == 885699688,
        power_mod(7, 2097152, 2147483647) == 151543255,
        power_mod(7, 4194304, 2147483647) == 511252559,
        power_mod(7, 8388608, 2147483647) == 138288726,
        power_mod(7, 16777216, 2147483647) == 365438676,
        power_mod(7, 33554432, 2147483647) == 2094564678,
        power_mod(7, 67108864, 2147483647) == 1967570846,
        power_mod(7, 134217728, 2147483647) == 826843884,
        power_mod(7, 268435456, 2147483647) == 2003390340,
        power_mod(7, 536870912, 2147483647) == 2053169806,
        power_mod(7, 1073741824, 2147483647) == 2147483640,
{
    assert(power_mod(7, 0, 2147483647) == 1);
    assert(power_mod(7, 1, 2147483647) == (power_mod(7, 0, 2147483647) * 7) % 2147483647);
    lemma_power_mod_chain(7, 2147483647, 1, 7, 1, 7, 49);
    lemma_power_mod_chain(7, 2147483647, 2, 49, 2, 49, 2401);
    lemma_power_mod_chain(7, 2147483647, 4, 2401, 4, 2401, 5764801);
    lemma_power_mod_chain(7, 2147483647, 8, 5764801, 8, 5764801, 621132276);
    lemma_power_mod_chain(7, 2147483647, 16, 621132276, 16, 621132276, 1565515858);
    lemma_power_mod_chain(7, 2147483647, 32, 1565515858, 32, 1565515858, 254926356);
    lemma_power_mod_chain(7, 2147483647, 64, 254926356, 64, 254926356, 505181450);
    lemma_power_mod_chain(7, 2147483647, 128, 505181450, 128, 505181450, 784826772);
    lemma_power_mod_chain(7, 2147483647, 256, 784826772, 256, 784826772, 1992759719);
    lemma_power_mod_chain(7, 2147483647, 512, 1992759719, 512, 1992759719, 1181505519);
    lemma_power_mod_chain(7, 2147483647, 1024, 1181505519, 1024, 1181505519, 714812675);
    lemma_power_mod_chain(7, 2147483647, 2048, 714812675, 2048, 714812675, 330997682);
    lemma_power_mod_chain(7, 2147483647, 4096, 330997682, 4096, 330997682, 1632702277);
    lemma_power_mod_chain(7, 2147483647, 8192, 1632702277, 8192, 1632702277, 1049638675);
    lemma_power_mod_chain(7, 2147483647, 16384, 1049638675, 16384, 1049638675, 1405977407);
    lemma_power_mod_chain(7, 2147483647, 32768, 1405977407, 32768, 1405977407, 118315438);
    lemma_power_mod_chain(7, 2147483647, 65536, 118315438, 65536, 118315438, 1064954231);
    lemma_power_mod_chain(7, 2147483647, 131072, 1064954231, 131072, 1064954231, 954354495);
    lemma_power_mod_chain(7, 2147483647, 262144, 954354495, 262144, 954354495, 446794602);
    lemma_power_mod_chain(7, 2147483647, 524288, 446794602, 524288, 446794602, 885699688);
    lemma_power_mod_chain(7, 2147483647, 1048576, 885699688, 1048576, 885699688, 151543255);
    lemma_power_mod_chain(7, 2147483647, 2097152, 151543255, 2097152, 151543255, 511252559);
    lemma_power_mod_chain(7, 2147483647, 4194304, 511252559, 4194304, 511252559, 138288726);
    lemma_power_mod_chain(7, 2147483647, 8388608, 138288726, 8388608, 138288726, 365438676);
    lemma_power_mod_chain(7, 2147483647, 16777216, 365438676, 16777216, 365438676, 2094564678);
    lemma_power_mod_chain(7, 2147483647, 33554432, 2094564678, 33554432, 2094564678, 1967570846);
    lemma_power_mod_chain(7, 2147483647, 67108864, 1967570846, 67108864, 1967570846, 826843884);
    lemma_power_mod_chain(7, 2147483647, 134217728, 826843884, 134217728, 826843884, 2003390340);
    lemma_power_mod_chain(7, 2147483647, 268435456, 2003390340, 268435456, 2003390340, 2053169806);
    lemma_power_mod_chain(7, 2147483647, 536870912, 2053169806, 536870912, 2053169806, 2147483640);
}

/// The 2147483646-th power of 7 is 1 modulo 2147483647.
proof fn lemma_power_mod_2147483647_at_2147483646()
    ensures
        power_mod(7, 2147483646, 2147483647) == 1,
{
    lemma_squares_mod_2147483647();
    lemma_power_mod_chain(7, 2147483647, 2, 49, 4, 2401, 117649);
    lemma_power_mod_chain(7, 2147483647, 6, 117649, 8, 5764801, 1765724044);
    lemma_power_mod_chain(7, 2147483647, 14, 1765724044, 16, 621132276, 470211272);
    lemma_power_mod_chain(7, 2147483647, 30, 470211272, 32, 1565515858, 969378910);
    lemma_power_mod_chain(7, 2147483647, 62, 969378910, 64, 254926356, 1982488685);
    lemma_power_mod_chain(7, 2147483647, 126, 1982488685, 128, 505181450, 1769064748);
    lemma_power_mod_chain(7, 2147483647, 254, 1769064748, 256, 784826772, 1004844897);
    lemma_power_mod_chain(7, 2147483647, 510, 1004844897, 512, 1992759719, 1645681642);
    lemma_power_mod_chain(7, 2147483647, 1022, 1645681642, 1024, 1181505519, 1723809692);
    lemma_power_mod_chain(7, 2147483647, 2046, 1723809692, 2048, 714812675, 269712236);
    lemma_power_mod_chain(7, 2147483647, 4094, 269712236, 4096, 330997682, 2049325511);
    lemma_power_mod_chain(7, 2147483647, 8190, 2049325511, 8192, 1632702277, 897945135);
    lemma_power_mod_chain(7, 2147483647, 16382, 897945135, 16384, 1049638675, 554607779);
    lemma_power_mod_chain(7, 2147483647, 32766, 554607779, 32768, 1405977407, 1711636279);
    lemma_power_mod_chain(7, 2147483647, 65534, 1711636279, 65536, 118315438, 1029736288);
    lemma_power_mod_chain(7, 2147483647, 131070, 1029736288, 131072, 1064954231, 501564788);
    lemma_power_mod_chain(7, 2147483647, 262142, 501564788, 262144, 954354495, 1148599376);
    lemma_power_mod_chain(7, 2147483647, 524286, 1148599376, 524288, 446794602, 675468457);
    lemma_power_mod_chain(7, 2147483647, 1048574, 675468457, 1048576, 885699688, 178397507);
    lemma_power_mod_chain(7, 2147483647, 2097150, 178397507, 2097152, 151543255, 974610057);
    lemma_power_mod_chain(7, 2147483647, 4194302, 974610057, 4194304, 511252559, 1755870094);
    lemma_power_mod_chain(7, 2147483647, 8388606, 1755870094, 8388608, 138288726, 1497548626);
    lemma_power_mod_chain(7, 2147483647, 16777214, 1497548626, 16777216, 365438676, 1445184518);
    lemma_power_mod_chain(7, 2147483647, 33554430, 1445184518, 33554432, 2094564678, 1135809429);
    lemma_power_mod_chain(7, 2147483647, 67108862, 1135809429, 67108864, 1967570846, 367483940);
    lemma_power_mod_chain(7, 2147483647, 134217726, 367483940, 134217728, 826843884, 1881585786);
    lemma_power_mod_chain(7, 2147483647, 268435454, 1881585786, 268435456, 2003390340, 261032409);
    lemma_power_mod_chain(7, 2147483647, 536870910, 261032409, 536870912, 2053169806, 306783378);
    lemma_power_mod_chain(7, 2147483647, 1073741822, 306783378, 1073741824, 2147483640, 1);
}

/// The 1073741823-th power of 7 is not 1 modulo 2147483647.
proof fn lemma_power_mod_2147483647_at_1073741823()
    ensures
        power_mod(7, 1073741823, 2147483647) == 2147483646,
{
    lemma_squares_mod_2147483647();
    lemma_power_mod_chain(7, 2147483647, 1, 7, 2, 49, 343);
    lemma_power_mod_chain(7, 2147483647, 3, 343, 4, 2401, 823543);
    lemma_power_mod_chain(7, 2147483647, 7, 823543, 8, 5764801, 1622650073);
    lemma_power_mod_chain(7, 2147483647, 15, 1622650073, 16, 621132276, 1143995257);
    lemma_power_mod_chain(7, 2147483647, 31, 1143995257, 32, 1565515858, 343201429);
    lemma_power_mod_chain(7, 2147483647, 63, 343201429, 64, 254926356, 992518913);
    lemma_power_mod_chain(7, 2147483647, 127, 992518913, 128, 505181450, 1646035001);
    lemma_power_mod_chain(7, 2147483647, 255, 1646035001, 256, 784826772, 591463338);
    lemma_power_mod_chain(7, 2147483647, 511, 591463338, 512, 1992759719, 782353259);
    lemma_power_mod_chain(7, 2147483647, 1023, 782353259, 1024, 1181505519, 1329249609);
    lemma_power_mod_chain(7, 2147483647, 2047, 1329249609, 2048, 714812675, 1887985652);
    lemma_power_mod_chain(7, 2147483647, 4095, 1887985652, 4096, 330997682, 1460376695);
    lemma_power_mod_chain(7, 2147483647, 8191, 1460376695, 8192, 1632702277, 1990648651);
    lemma_power_mod_chain(7, 2147483647, 16383, 1990648651, 16384, 1049638675, 1734770806);
    lemma_power_mod_chain(7, 2147483647, 32767, 1734770806, 32768, 1405977407, 1244035718);
    lemma_power_mod_chain(7, 2147483647, 65535, 1244035718, 65536, 118315438, 765703075);
    lemma_power_mod_chain(7, 2147483647, 131071, 765703075, 131072, 1064954231, 1363469869);
    lemma_power_mod_chain(7, 2147483647, 262143, 1363469869, 262144, 954354495, 1597744691);
    lemma_power_mod_chain(7, 2147483647, 524287, 1597744691, 524288, 446794602, 433311905);
    lemma_power_mod_chain(7, 2147483647, 1048575, 433311905, 1048576, 885699688, 1248782549);
    lemma_power_mod_chain(7, 2147483647, 2097151, 1248782549, 2097152, 151543255, 379819458);
    lemma_power_mod_chain(7, 2147483647, 4194303, 379819458, 4194304, 511252559, 1553672423);
    lemma_power_mod_chain(7, 2147483647, 8388607, 1553672423, 8388608, 138288726, 1892905794);
    lemma_power_mod_chain(7, 2147483647, 16777215, 1892905794, 16777216, 365438676, 1526357038);
    lemma_power_mod_chain(7, 2147483647, 33554431, 1526357038, 33554432, 2094564678, 1508215062);
    lemma_power_mod_chain(7, 2147483647, 67108863, 1508215062, 67108864, 1967570846, 424903933);
    lemma_power_mod_chain(7, 2147483647, 134217727, 424903933, 134217728, 826843884, 286198620);
    lemma_power_mod_chain(7, 2147483647, 268435455, 286198620, 268435456, 2003390340, 1827226863);
    lemma_power_mod_chain(7, 2147483647, 536870911, 1827226863, 536870912, 2053169806, 2147483646);
}

/// The 715827882-th power of 7 is not 1 modulo 2147483647.
proof fn lemma_power_mod_2147483647_at_715827882()
    ensures
        power_mod(7, 715827882, 2147483647) == 1513477735,
{
    lemma_squares_mod_2147483647();
    lemma_power_mod_chain(7, 2147483647, 2, 49, 8, 5764801, 282475249);
    lemma_power_mod_chain(7, 2147483647, 10, 282475249, 32, 1565515858, 567732671);
    lemma_power_mod_chain(7, 2147483647, 42, 567732671, 128, 505181450, 101929267);
    lemma_power_mod_chain(7, 2147483647, 170, 101929267, 512, 1992759719, 2144351583);
    lemma_power_mod_chain(7, 2147483647, 682, 2144351583, 2048, 714812675, 702715827);
    lemma_power_mod_chain(7, 2147483647, 2730, 702715827, 8192, 1632702277, 57777560);
    lemma_power_mod_chain(7, 2147483647, 10922, 57777560, 32768, 1405977407, 2039727126);
    lemma_power_mod_chain(7, 2147483647, 43690, 2039727126, 131072, 1064954231, 1440264748);
    lemma_power_mod_chain(7, 2147483647, 174762, 1440264748, 524288, 446794602, 1275070073);
    lemma_power_mod_chain(7, 2147483647, 699050, 1275070073, 2097152, 151543255, 1350851787);
    lemma_power_mod_chain(7, 2147483647, 2796202, 1350851787, 8388608, 138288726, 1706053424);
    lemma_power_mod_chain(7, 2147483647, 11184810, 1706053424, 33554432, 2094564678, 1527277373);
    lemma_power_mod_chain(7, 2147483647, 44739242, 1527277373, 134217728, 826843884, 373859930);
    lemma_power_mod_chain(7, 2147483647, 178956970, 373859930, 536870912, 2053169806, 1513477735);
}

/// The 306783378-th power of 7 is not 1 modulo 2147483647.
proof fn lemma_power_mod_2147483647_at_306783378()
    ensures
        power_mod(7, 306783378, 2147483647) == 1205362885,
{
    lemma_squares_mod_2147483647();
    lemma_power_mod_chain(7, 2147483647, 2, 49, 16, 621132276, 370710466);
    lemma_power_mod_chain(7, 2147483647, 18, 370710466, 128, 505181450, 1958495418);
    lemma_power_mod_chain(7, 2147483647, 146, 1958495418, 1024, 1181505519, 298918984);
    lemma_power_mod_chain(7, 2147483647, 1170, 298918984, 8192, 1632702277, 1590871391);
    lemma_power_mod_chain(7, 2147483647, 9362, 1590871391, 65536, 118315438, 1575786548);
    lemma_power_mod_chain(7, 2147483647, 74898, 1575786548, 524288, 446794602, 1859770966);
    lemma_power_mod_chain(7, 2147483647, 599186, 1859770966, 4194304, 511252559, 45899444);
    lemma_power_mod_chain(7, 2147483647, 4793490, 45899444, 33554432, 2094564678, 926975407);
    lemma_power_mod_chain(7, 2147483647, 38347922, 926975407, 268435456, 2003390340, 1205362885);
}

/// The 195225786-th power of 7 is not 1 modulo 2147483647.
proof fn lemma_power_mod_2147483647_at_195225786()
    ensures
        power_mod(7, 195225786, 2147483647) == 1969212174,
{
    lemma_squares_mod_2147483647();
    lemma_power_mod_chain(7, 2147483647, 2, 49, 8, 5764801, 282475249);
    lemma_power_mod_chain(7, 2147483647, 10, 282475249, 16, 621132276, 1566311569);
    lemma_power_mod_chain(7, 2147483647, 26, 1566311569, 32, 1565515858, 1162245163);
    lemma_power_mod_chain(7, 2147483647, 58, 1162245163, 128, 505181450, 920132265);
    lemma_power_mod_chain(7, 2147483647, 186, 920132265, 2048, 714812675, 298609332);
    lemma_power_mod_chain(7, 2147483647, 2234, 298609332, 8192, 1632702277, 1255505115);
    lemma_power_mod_chain(7, 2147483647, 10426, 1255505115, 16384, 1049638675, 1433340442);
    lemma_power_mod_chain(7, 2147483647, 26810, 1433340442, 32768, 1405977407, 356513379);
    lemma_power_mod_chain(7, 2147483647, 59578, 356513379, 131072, 1064954231, 1951423362);
    lemma_power_mod_chain(7, 2147483647, 190650, 1951423362, 2097152, 151543255, 1459639528);
    lemma_power_mod_chain(7, 2147483647, 2287802, 1459639528, 8388608, 138288726, 433714182);
    lemma_power_mod_chain(7, 2147483647, 10676410, 433714182, 16777216, 365438676, 1775052645);
    lemma_power_mod_chain(7, 2147483647, 27453626, 1775052645, 33554432, 2094564678, 335148324);
    lemma_power_mod_chain(7, 2147483647, 61008058, 335148324, 134217728, 826843884, 1969212174);
}

/// The 69273666-th power of 7 is not 1 modulo 2147483647.
proof fn lemma_power_mod_2147483647_at_69273666()
    ensures
        power_mod(7, 69273666, 2147483647) == 512,
{
    lemma_squares_mod_2147483647();
    lemma_power_mod_chain(7, 2147483647, 2, 49, 64, 254926356, 1753973209);
    lemma_power_mod_chain(7, 2147483647, 66, 1753973209, 2048, 714812675, 447033049);
    lemma_power_mod_chain(7, 2147483647, 2114, 447033049, 65536, 118315438, 1527519359);
    lemma_power_mod_chain(7, 2147483647, 67650, 1527519359, 2097152, 151543255, 494109411);
    lemma_power_mod_chain(7, 2147483647, 2164802, 494109411, 67108864, 1967570846, 512);
}

/// The 14221746-th power of 7 is not 1 modulo 2147483647.
proof fn lemma_power_mod_2147483647_at_14221746()
    ensures
        power_mod(7, 14221746, 2147483647) == 535044134,
{
    lemma_squares_mod_2147483647();
    lemma_power_mod_chain(7, 2147483647, 2, 49, 16, 621132276, 370710466);
    lemma_power_mod_chain(7, 2147483647, 18, 370710466, 32, 1565515858, 2007237709);
    lemma_power_mod_chain(7, 2147483647, 50, 2007237709, 128, 505181450, 1022387786);
    lemma_power_mod_chain(7, 2147483647, 178, 1022387786, 256, 784826772, 1146211578);
    lemma_power_mod_chain(7, 2147483647, 434, 1146211578, 65536, 118315438, 575788366);
    lemma_power_mod_chain(7, 2147483647, 65970, 575788366, 524288, 446794602, 1038457839);
    lemma_power_mod_chain(7, 2147483647, 590258, 1038457839, 1048576, 885699688, 1191752200);
    lemma_power_mod_chain(7, 2147483647, 1638834, 1191752200, 4194304, 511252559, 1662053863);
    lemma_power_mod_chain(7, 2147483647, 5833138, 1662053863, 8388608, 138288726, 535044134);
}

/// The 6487866-th power of 7 is not 1 modulo 2147483647.
proof fn lemma_power_mod_2147483647_at_6487866()
    ensures
        power_mod(7, 6487866, 2147483647) == 1761855083,
{
    lemma_squares_mod_2147483647();
    lemma_power_mod_chain(7, 2147483647, 2, 49, 8, 5764801, 282475249);
    lemma_power_mod_chain(7, 2147483647, 10, 282475249, 16, 621132276, 1566311569);
    lemma_power_mod_chain(7, 2147483647, 26, 1566311569, 32, 1565515858, 1162245163);
    lemma_power_mod_chain(7, 2147483647, 58, 1162245163, 256, 784826772, 771956549);
    lemma_power_mod_chain(7, 2147483647, 314, 771956549, 512, 1992759719, 426546666);
    lemma_power_mod_chain(7, 2147483647, 826, 426546666, 1024, 1181505519, 1812423303);
    lemma_power_mod_chain(7, 2147483647, 1850, 1812423303, 2048, 714812675, 35276248);
    lemma_power_mod_chain(7, 2147483647, 3898, 35276248, 4096, 330997682, 250130267);
    lemma_power_mod_chain(7, 2147483647, 7994, 250130267, 8192, 1632702277, 689856112);
    lemma_power_mod_chain(7, 2147483647, 16186, 689856112, 16384, 1049638675, 1722031081);
    lemma_power_mod_chain(7, 2147483647, 32570, 1722031081, 32768, 1405977407, 1685278595);
    lemma_power_mod_chain(7, 2147483647, 65338, 1685278595, 131072, 1064954231, 682860096);
    lemma_power_mod_chain(7, 2147483647, 196410, 682860096, 2097152, 151543255, 607547889);
    lemma_power_mod_chain(7, 2147483647, 2293562, 607547889, 4194304, 511252559, 1761855083);
}

/// 2147483647 is prime: 7 has order 2147483646 modulo it.
pub proof fn lemma_prime_2147483647()
    ensures
        is_prime(2147483647),
{
    lemma_power_mod_2147483647_at_2147483646();
    lemma_power_mod_2147483647_at_1073741823();
    lemma_power_mod_2147483647_at_715827882();
    lemma_power_mod_2147483647_at_306783378();
    lemma_power_mod_2147483647_at_195225786();
    lemma_power_mod_2147483647_at_69273666();
    lemma_power_mod_2147483647_at_14221746();
    lemma_power_mod_2147483647_at_6487866();
    lemma_prime_2();
    lemma_prime_3();
    lemma_prime_7();
    lemma_prime_11();
    lemma_prime_31();
    lemma_prime_151();
    lemma_prime_331();
    let f0 = Seq::<nat>::empty();
    assert(product(f0) == 1);
    let f1 = f0.push(2);
    lemma_product_push(f0, 2);
    assert(product(f1) == 2);
    let f2 = f1.push(3);
    lemma_product_push(f1, 3);
    assert(product(f2) == 6);
    let f3 = f2.push(3);
    lemma_product_push(f2, 3);
    assert(product(f3) == 18);
    let f4 = f3.push(7);
    lemma_product_push(f3, 7);
    assert(product(f4) == 126);
    let f5 = f4.push(11);
    lemma_product_push(f4, 11);
    assert(product(f5) == 1386);
    let f6 = f5.push(31);
    lemma_product_push(f5, 31);
    assert(product(f6) == 42966);
    let f7 = f6.push(151);
    lemma_product_push(f6, 151);
    assert(product(f7) == 6487866);
    let f8 = f7.push(331);
    lemma_product_push(f7, 331);
    assert(product(f8) == 2147483646);
    let factors = f8;
    assert forall|j: int| 0 <= j < factors.len() implies power_mod(
        7,
        2147483646nat / #[trigger] factors[j],
        2147483647,
    ) != 1 by {
        if j == 0 {
            assert(factors[0] == 2);
            assert(2147483646nat / 2nat == 1073741823);
        }
        if j == 1 {
            assert(factors[1] == 3);
            assert(2147483646nat / 3nat == 715827882);
        }
        if j == 2 {
            assert(factors[2] == 3);
            assert(2147483646nat / 3nat == 715827882);
        }
        if j == 3 {
            assert(factors[3] == 7);
            assert(2147483646nat / 7nat == 306783378);
        }
        if j == 4 {
            assert(factors[4] == 11);
            assert(2147483646nat / 11nat == 195225786);
        }
        if j == 5 {
            assert(factors[5] == 31);
            assert(2147483646nat / 31nat == 69273666);
        }
        if j == 6 {
            assert(factors[6] == 151);
            assert(2147483646nat / 151nat == 14221746);
        }
        if j == 7 {
            assert(factors[7] == 331);
            assert(2147483646nat / 331nat == 6487866);
        }
    }
    lemma_prime_by_order(2147483647, 7, factors);
}

} // verus!
