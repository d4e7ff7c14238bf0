use vstd::prelude::*;
use crate::mathfuncs::Vec2;
use crate::state::{MainState, FULL_SIZE};

verus! {

/// Ball start position of a level; level 1 centers on the screen, the
/// other levels are fixed layouts.
pub open spec fn level_start(level: int, screen_w: int, screen_h: int) -> Vec2 {
    if level == 1 {
        Vec2 { x: (screen_w / 2) as i64, y: (screen_h / 2 + 150_000) as i64 }
    } else if level == 2 {
        Vec2 { x: 141_490, y: 100_000 }
    } else if level == 3 {
        Vec2 { x: 384_490, y: 58_000 }
    } else if level == 4 {
        Vec2 { x: 98_490, y: 300_000 }
    } else if level == 5 {
        Vec2 { x: 384_250, y: 462_000 }
    } else if level == 6 {
        Vec2 { x: 183_250, y: 460_000 }
    } else {
        Vec2 { x: 0, y: 0 }
    }
}

/// Hole position of a level.
pub open spec fn level_hole(level: int, screen_w: int, screen_h: int) -> Vec2 {
    if level == 1 {
        Vec2 { x: (screen_w / 2) as i64, y: (screen_h / 2 - 150_000) as i64 }
    } else if level == 2 {
        Vec2 { x: 623_000, y: 380_000 }
    } else if level == 3 {
        Vec2 { x: 384_000, y: 457_000 }
    } else if level == 4 {
        Vec2 { x: 705_000, y: 300_000 }
    } else if level == 5 {
        Vec2 { x: 384_000, y: 97_000 }
    } else if level == 6 {
        Vec2 { x: 183_000, y: 99_000 }
    } else {
        Vec2 { x: 0, y: 0 }
    }
}

/// Obstacle anchor positions of a level; empty outside levels 1 through 6.
pub open spec fn level_cords(level: int) -> Seq<Vec2> {
    if level == 1 {
        seq![
            Vec2 { x: 360_000, y: 159_000 },
            Vec2 { x: 442_000, y: 159_000 },
            Vec2 { x: 400_000, y: 193_000 },
        ]
    } else if level == 2 {
        seq![
            Vec2 { x: 583_000, y: 338_000 },
            Vec2 { x: 583_000, y: 381_000 },
            Vec2 { x: 583_000, y: 424_000 },
            Vec2 { x: 399_000, y: 133_000 },
            Vec2 { x: 335_000, y: 199_000 },
            Vec2 { x: 271_000, y: 266_000 },
            Vec2 { x: 141_000, y: 388_000 },
            Vec2 { x: 207_000, y: 330_000 },
        ]
    } else if level == 3 {
        seq![
            Vec2 { x: 502_000, y: 217_000 },
            Vec2 { x: 268_000, y: 340_000 },
            Vec2 { x: 534_000, y: 123_000 },
            Vec2 { x: 236_000, y: 190_000 },
            Vec2 { x: 384_000, y: 347_000 },
            Vec2 { x: 534_000, y: 414_000 },
        ]
    } else if level == 4 {
        seq![
            Vec2 { x: 400_000, y: 133_000 },
            Vec2 { x: 400_000, y: 502_000 },
            Vec2 { x: 400_000, y: 250_000 },
            Vec2 { x: 400_000, y: 317_000 },
            Vec2 { x: 400_000, y: 384_000 },
        ]
    } else if level == 5 {
        seq![
            Vec2 { x: 96_000, y: 218_000 },
            Vec2 { x: 144_000, y: 218_000 },
            Vec2 { x: 192_000, y: 218_000 },
            Vec2 { x: 240_000, y: 218_000 },
            Vec2 { x: 288_000, y: 218_000 },
            Vec2 { x: 336_000, y: 218_000 },
            Vec2 { x: 384_000, y: 218_000 },
            Vec2 { x: 432_000, y: 218_000 },
            Vec2 { x: 480_000, y: 218_000 },
            Vec2 { x: 528_000, y: 218_000 },
            Vec2 { x: 576_000, y: 218_000 },
            Vec2 { x: 624_000, y: 218_000 },
            Vec2 { x: 672_000, y: 218_000 },
            Vec2 { x: 720_000, y: 218_000 },
        ]
    } else if level == 6 {
        seq![
            Vec2 { x: 138_000, y: 155_000 },
            Vec2 { x: 283_000, y: 132_000 },
            Vec2 { x: 183_000, y: 224_000 },
            Vec2 { x: 344_000, y: 172_000 },
            Vec2 { x: 183_000, y: 377_000 },
            Vec2 { x: 400_000, y: 133_000 },
            Vec2 { x: 384_000, y: 343_000 },
            Vec2 { x: 267_000, y: 419_000 },
            Vec2 { x: 235_000, y: 292_000 },
            Vec2 { x: 392_000, y: 240_000 },
        ]
    } else {
        Seq::empty()
    }
}

/// Size class per obstacle, in lock-step with `level_cords`: one entry per
/// obstacle on every level.
pub open spec fn level_sizes(level: int) -> Seq<i32> {
    if level == 1 {
        seq![32i32, 32i32, 32i32]
    } else if level == 2 {
        seq![32i32, 32i32, 32i32, 64i32, 64i32, 64i32, 64i32, 64i32]
    } else if level == 3 {
        seq![32i32, 32i32, 64i32, 64i32, 64i32, 64i32]
    } else if level == 4 {
        seq![32i32, 32i32, 64i32, 64i32, 64i32]
    } else if level == 5 {
        Seq::new(14, |i: int| 32i32)
    } else if level == 6 {
        seq![32i32, 32i32, 32i32, 32i32, 32i32, 32i32, 32i32, 32i32, 64i32, 64i32]
    } else {
        Seq::empty()
    }
}

/// The two lists a level yields always have the same length.
pub proof fn lemma_level_lists_aligned(level: int)
    ensures
        level_cords(level).len() == level_sizes(level).len(),
{
}

impl MainState {
    /// Resets the layout to the current level: rebuilds both obstacle lists
    /// in lock-step, places ball and hole from the level table (levels 1
    /// through 6; any other ordinal empties the lists and leaves both where
    /// they are), and restores the ball's visual scale.
    pub fn get_level_obstacles(&mut self)
        requires
            old(self).wf(),
        ensures
            final(self).wf(),
            final(self).obstacle_cords@ == level_cords(old(self).level as int),
            final(self).obstacle_size@ == level_sizes(old(self).level as int),
            1 <= old(self).level <= 6 ==> {
                &&& final(self).player.position
                    == level_start(old(self).level as int, old(self).screen_w as int, old(self).screen_h as int)
                &&& final(self).hole.position
                    == level_hole(old(self).level as int, old(self).screen_w as int, old(self).screen_h as int)
            },
            !(1 <= old(self).level <= 6) ==> {
                &&& final(self).player.position == old(self).player.position
                &&& final(self).hole.position == old(self).hole.position
            },
            final(self).player.size == FULL_SIZE,
            final(self).player.velocity == old(self).player.velocity,
            final(self).player.aim == old(self).player.aim,
            final(self).player.anglevec == old(self).player.anglevec,
            final(self).player.mouse_pos_when_shot == old(self).player.mouse_pos_when_shot,
            final(self).player.pos_before_shot == old(self).player.pos_before_shot,
            final(self).player.capture_anim == old(self).player.capture_anim,
            final(self).holding_lmb == old(self).holding_lmb,
            final(self).mousevel_buildup == old(self).mousevel_buildup,
            final(self).level == old(self).level,
            final(self).strokes == old(self).strokes,
            final(self).completed == old(self).completed,
            final(self).hit_hole == old(self).hit_hole,
            final(self).screen_w == old(self).screen_w,
            final(self).screen_h == old(self).screen_h,
    {
        self.obstacle_cords.clear();
        self.obstacle_size.clear();

        if self.level == 1 {
            let half_w: i64 = self.screen_w / 2;
            let half_h: i64 = self.screen_h / 2;
            self.player.position = Vec2 { x: half_w, y: half_h + 150_000 };
            self.hole.position = Vec2 { x: half_w, y: half_h - 150_000 };

            self.obstacle_cords.push(Vec2 { x: 360_000, y: 159_000 });
            self.obstacle_size.push(32);

            self.obstacle_cords.push(Vec2 { x: 442_000, y: 159_000 });
            self.obstacle_size.push(32);

            self.obstacle_cords.push(Vec2 { x: 400_000, y: 193_000 });
            self.obstacle_size.push(32);
        } else if self.level == 2 {
            self.player.position = Vec2 { x: 141_490, y: 100_000 };
            self.hole.position = Vec2 { x: 623_000, y: 380_000 };

            self.obstacle_cords.push(Vec2 { x: 583_000, y: 338_000 });
            self.obstacle_size.push(32);

            self.obstacle_cords.push(Vec2 { x: 583_000, y: 381_000 });
            self.obstacle_size.push(32);

            self.obstacle_cords.push(Vec2 { x: 583_000, y: 424_000 });
            self.obstacle_size.push(32);

            self.obstacle_cords.push(Vec2 { x: 399_000, y: 133_000 });
            self.obstacle_size.push(64);

            self.obstacle_cords.push(Vec2 { x: 335_000, y: 199_000 });
            self.obstacle_size.push(64);

            self.obstacle_cords.push(Vec2 { x: 271_000, y: 266_000 });
            self.obstacle_size.push(64);

            self.obstacle_cords.push(Vec2 { x: 141_000, y: 388_000 });
            self.obstacle_size.push(64);

            self.obstacle_cords.push(Vec2 { x: 207_000, y: 330_000 });
            self.obstacle_size.push(64);
        } else if self.level == 3 {
            self.player.position = Vec2 { x: 384_490, y: 58_000 };
            self.hole.position = Vec2 { x: 384_000, y: 457_000 };

            self.obstacle_cords.push(Vec2 { x: 502_000, y: 217_000 });
            self.obstacle_size.push(32);

            self.obstacle_cords.push(Vec2 { x: 268_000, y: 340_000 });
            self.obstacle_size.push(32);

            self.obstacle_cords.push(Vec2 { x: 534_000, y: 123_000 });
            self.obstacle_size.push(64);

            self.obstacle_cords.push(Vec2 { x: 236_000, y: 190_000 });
            self.obstacle_size.push(64);

            self.obstacle_cords.push(Vec2 { x: 384_000, y: 347_000 });
            self.obstacle_size.push(64);

            self.obstacle_cords.push(Vec2 { x: 534_000, y: 414_000 });
            self.obstacle_size.push(64);
        } else if self.level == 4 {
            self.player.position = Vec2 { x: 98_490, y: 300_000 };
            self.hole.position = Vec2 { x: 705_000, y: 300_000 };

            self.obstacle_cords.push(Vec2 { x: 400_000, y: 133_000 });
            self.obstacle_size.push(32);

            self.obstacle_cords.push(Vec2 { x: 400_000, y: 502_000 });
            self.obstacle_size.push(32);

            self.obstacle_cords.push(Vec2 { x: 400_000, y: 250_000 });
            self.obstacle_size.push(64);

            self.obstacle_cords.push(Vec2 { x: 400_000, y: 317_000 });
            self.obstacle_size.push(64);

            self.obstacle_cords.push(Vec2 { x: 400_000, y: 384_000 });
            self.obstacle_size.push(64);
        } else if self.level == 5 {
            self.player.position = Vec2 { x: 384_250, y: 462_000 };
            self.hole.position = Vec2 { x: 384_000, y: 97_000 };

            self.obstacle_cords.push(Vec2 { x: 96_000, y: 218_000 });
            self.obstacle_cords.push(Vec2 { x: 144_000, y: 218_000 });
            self.obstacle_cords.push(Vec2 { x: 192_000, y: 218_000 });
            self.obstacle_cords.push(Vec2 { x: 240_000, y: 218_000 });
            self.obstacle_cords.push(Vec2 { x: 288_000, y: 218_000 });
            self.obstacle_cords.push(Vec2 { x: 336_000, y: 218_000 });
            self.obstacle_cords.push(Vec2 { x: 384_000, y: 218_000 });
            self.obstacle_cords.push(Vec2 { x: 432_000, y: 218_000 });
            self.obstacle_cords.push(Vec2 { x: 480_000, y: 218_000 });
            self.obstacle_cords.push(Vec2 { x: 528_000, y: 218_000 });
            self.obstacle_cords.push(Vec2 { x: 576_000, y: 218_000 });
            self.obstacle_cords.push(Vec2 { x: 624_000, y: 218_000 });
            self.obstacle_cords.push(Vec2 { x: 672_000, y: 218_000 });
            self.obstacle_cords.push(Vec2 { x: 720_000, y: 218_000 });

            // One size entry per obstacle, no more: the lists stay aligned.
            let n: usize = self.obstacle_cords.len();
            let mut sizes: Vec<i32> = Vec::new();
            let mut i: usize = 0;
            while i < n
                invariant
                    i <= n,
                    n == 14,
                    sizes@ =~= Seq::new(i as nat, |j: int| 32i32),
                decreases n - i,
            {
                sizes.push(32);
                i = i + 1;
            }
            self.obstacle_size = sizes;
        } else if self.level == 6 {
            self.player.position = Vec2 { x: 183_250, y: 460_000 };
            self.hole.position = Vec2 { x: 183_000, y: 99_000 };

            self.obstacle_cords.push(Vec2 { x: 138_000, y: 155_000 });
            self.obstacle_size.push(32);

            self.obstacle_cords.push(Vec2 { x: 283_000, y: 132_000 });
            self.obstacle_size.push(32);

            self.obstacle_cords.push(Vec2 { x: 183_000, y: 224_000 });
            self.obstacle_size.push(32);

            self.obstacle_cords.push(Vec2 { x: 344_000, y: 172_000 });
            self.obstacle_size.push(32);

            self.obstacle_cords.push(Vec2 { x: 183_000, y: 377_000 });
            self.obstacle_size.push(32);

            self.obstacle_cords.push(Vec2 { x: 400_000, y: 133_000 });
            self.obstacle_size.push(32);

            self.obstacle_cords.push(Vec2 { x: 384_000, y: 343_000 });
            self.obstacle_size.push(32);

            self.obstacle_cords.push(Vec2 { x: 267_000, y: 419_000 });
            self.obstacle_size.push(32);

            self.obstacle_cords.push(Vec2 { x: 235_000, y: 292_000 });
            self.obstacle_size.push(64);

            self.obstacle_cords.push(Vec2 { x: 392_000, y: 240_000 });
            self.obstacle_size.push(64);
        }

        self.player.size = FULL_SIZE;

        proof {
            assert(self.obstacle_cords@ =~= level_cords(old(self).level as int));
            assert(self.obstacle_size@ =~= level_sizes(old(self).level as int));
        }
    }
}

} // verus!
