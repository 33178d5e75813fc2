//! La pasarela de pagos.
pub mod conciliacion;
pub mod procesador_pagos;
