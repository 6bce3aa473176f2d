# game_haptics_router

Routes the force feedback of games on Linux to buttplug/Intiface devices. A probe in the kernel
watches the requests by which games upload effects to their controllers and erase them. The event
streams of the controllers tell when an effect is played or stopped. Effects are translated into
sequences of intensities, and the sequences are sent to the actuators that the controller is
mapped to.

The decisions stand in a library that is verified with Verus; the program around it does the input
and output.

- `src/`: the library. Its functions take what happened and return what is to be done. Their
  contracts say what that is, exactly where it depends on the arguments alone, and for some reading
  of the clock where it depends on the time; the public proof functions state what holds across calls,
  such as that a play that comes before the upload of its effect is resolved by it, that a stopped
  device starts nothing, that a superseded sequence never takes its successor's place away, and that
  every sequence ends in silence when its replay is over.
- `tests/`: tests of the library.
- `app/`: the program. It opens devices and connections, runs tasks and timers, and evaluates
  intensities as floating-point numbers. It plays three roles, by the name that it is called by: the
  router, the plain probe (`haptics-probe`) and the end-to-end tests (`e2e-tests`).

What the library takes on trust is marked `external_body` or `assume_specification`, each with a
comment that says what is claimed: the clock, the way `std` writes texts and durations with `{:?}`,
how `serde_json` reads texts, and how `buttplug_core` messages are written.

Intensities in the library are the whole numbers that they are computed from. A point of a sequence
says, for instance, that a sine stands 20 ms into its period of 80 ms under an attack that is 20 ms
old, and not which fraction that makes.
