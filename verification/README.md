# robot_control

A two-link planar arm: joint limits, reachability, inverse-kinematics
candidate selection, a saturated PD controller, a transactional simulation
step and the decisions of a bounded closed motion loop.

`src/` is the verified library. It decides on IEEE-754 binary64 values
carried by their bit patterns (`scalar::Scalar`, with the IEEE order,
negation, absolute value and `clamp` proved against a specification of the
order of binary64 values). Every contract is stated over these values.

`app/` is the example program. It holds the floating-point arithmetic
(degree conversion, trigonometry, the law of cosines, the PD law, Euler
integration), hands its results to the library and runs the motion loop
that the library's `MotionSupervisor` drives.

Modules: `scalar`, `errors`, `robot` (limits, arm, reachability, inverse
kinematics, nearest solution), `planner`, `control`, `simulation`,
`coordinator`.
